//! The commands that the bot declares to the platform.

pub mod ping;

use vstd::prelude::*;

verus! {

/// A command as declared to the platform.
pub struct CommandSpec {
    pub name: String,
    pub description: String,
}

} // verus!
