//! What a host hands over where a typed value was expected.

use vstd::prelude::*;
use vstd::string::*;

verus! {

/// A value as a dynamically typed host passes it: nothing about its shape is
/// known until it is looked at.
#[derive(Debug, PartialEq, Eq)]
pub enum Payload {
    /// Nothing was passed.
    Undefined,
    /// The host's null.
    Null,
    Bool(bool),
    Text(String),
    List(Vec<Payload>),
    /// Named fields, in the order in which they were set.
    Record(Vec<(String, Payload)>),
    /// Anything else: a number, a function, a symbol.
    Other,
}

/// The value that `fields` holds under `key`. Where a key was set more than
/// once the last entry counts.
pub open spec fn lookup(fields: Seq<(String, Payload)>, key: Seq<char>) -> Option<Payload>
    decreases fields.len(),
{
    if fields.len() == 0 {
        None
    } else if fields.last().0@ == key {
        Some(fields.last().1)
    } else {
        lookup(fields.drop_last(), key)
    }
}

impl Payload {
    /// True of the two ways in which a host passes no value at all.
    pub open spec fn is_absent(self) -> bool {
        self is Undefined || self is Null
    }

    /// The field `key` of a record. Any other payload has no fields.
    pub open spec fn spec_field(self, key: Seq<char>) -> Option<Payload> {
        match self {
            Payload::Record(fields) => lookup(fields@, key),
            _ => None,
        }
    }

    /// Reads the field `key`.
    pub fn field(&self, key: &str) -> (found: Option<&Payload>)
        ensures
            match found {
                Some(value) => self.spec_field(key@) == Some(*value),
                None => self.spec_field(key@) is None,
            },
    {
        match self {
            Payload::Record(fields) => {
                let wanted = String::from_str(key);
                let mut i: usize = fields.len();
                assert(fields@.take(i as int) == fields@);
                while i > 0
                    invariant
                        i <= fields.len(),
                        wanted@ == key@,
                        self.spec_field(key@) == lookup(fields@, key@),
                        lookup(fields@, key@) == lookup(fields@.take(i as int), key@),
                    decreases i,
                {
                    i = i - 1;
                    let ghost upto = fields@.take(i + 1);
                    assert(upto.last() == fields@[i as int]);
                    assert(upto.drop_last() == fields@.take(i as int));
                    if fields[i].0 == wanted {
                        assert(lookup(upto, key@) == Some(fields@[i as int].1));
                        return Some(&fields[i].1);
                    }
                    assert(lookup(upto, key@) == lookup(upto.drop_last(), key@));
                }
                None
            },
            _ => None,
        }
    }
}

} // verus!
