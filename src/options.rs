//! The options of a slash-command interaction: the raw list that the
//! platform sends, and the map from option name to value built from it.

use vstd::prelude::*;
use crate::text::same_text;

verus! {

/// The value of one option, by its runtime tag.
pub enum OptionValue {
    /// A string; also the form in which entity references (users, roles,
    /// channels) arrive, as their decimal identifier.
    String(String),
    /// A number that fits a signed 64-bit integer.
    Integer(i64),
    /// Any other number, held as the bit pattern of the IEEE-754 double
    /// that it reads as.
    Float(u64),
    /// A boolean.
    Bool(bool),
    /// A value of any other shape.
    Other,
}

/// One entry of the raw option list: a name, and a value unless none was
/// supplied.
pub struct RawOption {
    pub name: String,
    pub value: Option<OptionValue>,
}

/// The mapping from option name to value that a raw list describes: each
/// entry with a value sets its name, a later entry overriding an earlier one,
/// and an entry without a value leaves the map as it is.
pub open spec fn options_model(raw: Seq<RawOption>) -> Map<Seq<char>, OptionValue>
    decreases raw.len(),
{
    if raw.len() == 0 {
        Map::empty()
    } else {
        let m = options_model(raw.drop_last());
        match raw.last().value {
            Some(v) => m.insert(raw.last().name@, v),
            None => m,
        }
    }
}

/// The mapping that a list of (name, value) entries describes, a later
/// entry overriding an earlier one.
pub open spec fn entries_model(e: Seq<(String, OptionValue)>) -> Map<Seq<char>, OptionValue>
    decreases e.len(),
{
    if e.len() == 0 {
        Map::empty()
    } else {
        entries_model(e.drop_last()).insert(e.last().0@, e.last().1)
    }
}

/// The options of one interaction, by name.
pub struct OptionMap {
    entries: Vec<(String, OptionValue)>,
}

impl View for OptionMap {
    type V = Map<Seq<char>, OptionValue>;

    closed spec fn view(&self) -> Map<Seq<char>, OptionValue> {
        entries_model(self.entries@)
    }
}

/// No entry of the list carries the name.
proof fn lemma_entries_absent(e: Seq<(String, OptionValue)>, name: Seq<char>)
    requires
        forall|i: int| 0 <= i < e.len() ==> (#[trigger] e[i]).0@ != name,
    ensures
        !entries_model(e).contains_key(name),
    decreases e.len(),
{
    if e.len() > 0 {
        let p = e.drop_last();
        assert forall|i: int| 0 <= i < p.len() implies (#[trigger] p[i]).0@ != name by {
            assert(p[i] == e[i]);
        }
        lemma_entries_absent(p, name);
        assert(e[e.len() - 1].0@ != name);
    }
}

/// The last entry that carries the name gives its value.
proof fn lemma_entries_last(e: Seq<(String, OptionValue)>, name: Seq<char>, j: int)
    requires
        0 <= j < e.len(),
        e[j].0@ == name,
        forall|i: int| j < i < e.len() ==> (#[trigger] e[i]).0@ != name,
    ensures
        entries_model(e).contains_key(name),
        entries_model(e)[name] == e[j].1,
    decreases e.len(),
{
    if j < e.len() - 1 {
        let p = e.drop_last();
        assert forall|i: int| j < i < p.len() implies (#[trigger] p[i]).0@ != name by {
            assert(p[i] == e[i]);
        }
        assert(p[j] == e[j]);
        lemma_entries_last(p, name, j);
        assert(e[e.len() - 1].0@ != name);
    }
}

impl OptionValue {
    /// A copy of the value.
    pub fn duplicate(&self) -> (r: OptionValue)
        ensures
            r == *self,
    {
        match self {
            OptionValue::String(s) => OptionValue::String(s.clone()),
            OptionValue::Integer(n) => OptionValue::Integer(*n),
            OptionValue::Float(bits) => OptionValue::Float(*bits),
            OptionValue::Bool(b) => OptionValue::Bool(*b),
            OptionValue::Other => OptionValue::Other,
        }
    }
}

impl OptionMap {
    /// Builds the map from the raw option list, leaving out the options for
    /// which no value was supplied.
    pub fn from_raw(raw: &Vec<RawOption>) -> (r: OptionMap)
        ensures
            r@ == options_model(raw@),
    {
        let mut entries: Vec<(String, OptionValue)> = Vec::new();
        let mut i: usize = 0;
        while i < raw.len()
            invariant
                0 <= i <= raw.len(),
                entries_model(entries@) == options_model(raw@.subrange(0, i as int)),
            decreases raw.len() - i,
        {
            let ghost before = entries@;
            let ghost q = raw@.subrange(0, i + 1);
            assert(q.drop_last() =~= raw@.subrange(0, i as int));
            assert(q.last() == raw@[i as int]);
            match &raw[i].value {
                Some(v) => {
                    entries.push((raw[i].name.clone(), v.duplicate()));
                    assert(entries@.drop_last() =~= before);
                },
                None => {},
            }
            i = i + 1;
        }
        assert(raw@.subrange(0, raw.len() as int) =~= raw@);
        OptionMap { entries }
    }

    /// The value stored under `name`, if any.
    pub fn get(&self, name: &str) -> (r: Option<&OptionValue>)
        ensures
            r matches Some(v) ==> self@.contains_key(name@) && *v == self@[name@],
            r is None ==> !self@.contains_key(name@),
    {
        let mut j: usize = self.entries.len();
        while j > 0
            invariant
                0 <= j <= self.entries.len(),
                forall|i: int| j <= i < self.entries.len() ==> (#[trigger] self.entries@[i]).0@ != name@,
            decreases j,
        {
            j = j - 1;
            if same_text(self.entries[j].0.as_str(), name) {
                proof {
                    lemma_entries_last(self.entries@, name@, j as int);
                }
                return Some(&self.entries[j].1);
            }
        }
        proof {
            lemma_entries_absent(self.entries@, name@);
        }
        None
    }
}

} // verus!
