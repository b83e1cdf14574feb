//! A loosely typed document value: what a persisted document holds before
//! its fields have been checked. Numbers carry the two readings that the
//! repair needs: as a whole number, and in thousandths.
use vstd::prelude::*;

verus! {

/// A number as it was read from a document.
#[derive(Clone, Copy, Debug, PartialEq, Eq, Structural)]
pub struct Number {
    /// The number itself, where it is a whole number that fits in an `i64`.
    pub integer: Option<i64>,
    /// The number in thousandths, rounded and saturated to the range of `i64`.
    pub milli: i64,
}

/// A document value of unchecked shape.
#[derive(Debug)]
pub enum Loose {
    Null,
    Bool(bool),
    Number(Number),
    Text(String),
    List(Vec<Loose>),
    Object(Vec<Member>),
}

/// One key of an object, with its value.
#[derive(Debug)]
pub struct Member {
    pub key: String,
    pub value: Loose,
}

/// The value stored under `key` among `members`; a later member with the same
/// key shadows an earlier one.
pub open spec fn member_value(members: Seq<Member>, key: Seq<char>) -> Option<Loose>
    decreases members.len(),
{
    if members.len() == 0 {
        None
    } else if members.last().key@ == key {
        Some(members.last().value)
    } else {
        member_value(members.drop_last(), key)
    }
}

/// The value of field `key` of `v`; `None` where `v` is no object or lacks the key.
pub open spec fn field_of(v: Loose, key: Seq<char>) -> Option<Loose> {
    match v {
        Loose::Object(members) => member_value(members@, key),
        _ => None,
    }
}

/// Compares two texts.
pub fn same_text(a: &str, b: &str) -> (r: bool)
    ensures
        r == (a@ == b@),
{
    a.to_owned() == b.to_owned()
}

impl Loose {
    /// The value of field `key`, where `self` is an object that has it.
    pub fn get(&self, key: &str) -> (r: Option<&Loose>)
        ensures
            r.is_some() == field_of(*self, key@).is_some(),
            r.is_some() ==> *r.unwrap() == field_of(*self, key@).unwrap(),
    {
        match self {
            Loose::Object(members) => {
                let mut i: usize = members.len();
                assert(members@.take(i as int) =~= members@);
                assert(field_of(*self, key@) == member_value(members@, key@));
                while i > 0
                    invariant
                        i <= members.len(),
                        field_of(*self, key@) == member_value(members@, key@),
                        member_value(members@, key@) == member_value(members@.take(i as int), key@),
                    decreases i,
                {
                    if same_text(members[i - 1].key.as_str(), key) {
                        assert(members@.take(i as int).last() == members@[i - 1]);
                        assert(member_value(members@.take(i as int), key@) == Some(members@[i - 1].value));
                        return Some(&members[i - 1].value);
                    }
                    assert(members@.take(i as int).drop_last() =~= members@.take(i - 1));
                    i -= 1;
                }
                None
            },
            _ => None,
        }
    }
}

} // verus!
