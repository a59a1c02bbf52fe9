//! The keyword auto-reply to plain messages.

use vstd::prelude::*;

verus! {

/// What `str::to_lowercase` makes of a text.
pub uninterp spec fn lower_of(s: Seq<char>) -> Seq<char>;

/// Relies on `str::to_lowercase`: the lowercase form of `s`, which depends
/// on the characters of `s` alone.
#[verifier::external_body]
fn lowercase(s: &str) -> (r: String)
    ensures
        r@ == lower_of(s@),
{
    s.to_lowercase()
}

/// The text that a message must start with, once lowercased.
pub open spec fn trigger_text() -> Seq<char> {
    seq!['b', 'i', 'n', 'g', '?']
}

/// The answer to a message that starts with the trigger.
pub open spec fn answer_text() -> Seq<char> {
    seq!['c', 'h', 'i', 'l', 'l', 'i', 'n', 'g', ' ', '\u{1F976}']
}

/// `p` is a prefix of `s`.
pub open spec fn is_prefix(p: Seq<char>, s: Seq<char>) -> bool {
    p.len() <= s.len() && s.subrange(0, p.len() as int) == p
}

/// Whether an already lowercased text starts with the trigger.
pub fn starts_with_trigger(lowered: &str) -> (r: bool)
    ensures
        r == is_prefix(trigger_text(), lowered@),
{
    let trigger = "bing?";
    proof {
        reveal_strlit("bing?");
    }
    assert(trigger@ =~= trigger_text());
    let n = trigger.unicode_len();
    if lowered.unicode_len() < n {
        return false;
    }
    let mut i: usize = 0;
    while i < n
        invariant
            n == trigger@.len(),
            trigger@ == trigger_text(),
            n <= lowered@.len(),
            0 <= i <= n,
            forall|k: int| 0 <= k < i ==> lowered@[k] == trigger@[k],
        decreases n - i,
    {
        if lowered.get_char(i) != trigger.get_char(i) {
            assert(lowered@.subrange(0, n as int)[i as int] != trigger@[i as int]);
            return false;
        }
        i = i + 1;
    }
    assert(lowered@.subrange(0, n as int) =~= trigger@);
    true
}

/// The answer to a message with text `content`: present exactly when the
/// lowercased text starts with the trigger.
pub fn handle(content: &str) -> (r: Option<String>)
    ensures
        r is Some <==> is_prefix(trigger_text(), lower_of(content@)),
        r matches Some(t) ==> t@ == answer_text(),
{
    let lowered = lowercase(content);
    if starts_with_trigger(lowered.as_str()) {
        proof {
            reveal_strlit("chilling \u{1F976}");
        }
        let answer = String::from_str("chilling \u{1F976}");
        assert(answer@ =~= answer_text());
        Some(answer)
    } else {
        None
    }
}

} // verus!
