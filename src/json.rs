//! A JSON document as the library reads it, and field lookup in it.
use vstd::prelude::*;

verus! {

/// A JSON value. A number is kept as the text it was written with, and an
/// object as its members in document order.
#[derive(Debug)]
pub enum Json {
    Null,
    Bool(bool),
    Number(String),
    Str(String),
    Array(Vec<Json>),
    Object(Vec<(String, Json)>),
}

/// The value of the first member of `members` named `key`, if any.
pub open spec fn member(members: Seq<(String, Json)>, key: Seq<char>) -> Option<Json>
    decreases members.len(),
{
    if members.len() == 0 {
        None
    } else if members[0].0@ == key {
        Some(members[0].1)
    } else {
        member(members.drop_first(), key)
    }
}

/// Whether two strings hold the same characters.
pub fn same_text(a: &str, b: &str) -> (r: bool)
    ensures
        r == (a@ == b@),
{
    let n = a.unicode_len();
    if n != b.unicode_len() {
        return false;
    }
    let mut i: usize = 0;
    while i < n
        invariant
            n == a@.len() == b@.len(),
            i <= n,
            a@.subrange(0, i as int) == b@.subrange(0, i as int),
        decreases n - i,
    {
        if a.get_char(i) != b.get_char(i) {
            assert(a@[i as int] != b@[i as int]);
            return false;
        }
        assert(a@.subrange(0, i + 1) =~= a@.subrange(0, i as int).push(a@[i as int]));
        assert(b@.subrange(0, i + 1) =~= b@.subrange(0, i as int).push(b@[i as int]));
        i = i + 1;
    }
    assert(a@ =~= a@.subrange(0, n as int));
    assert(b@ =~= b@.subrange(0, n as int));
    true
}

/// The position of the first member of `members` named `key`.
fn position(members: &Vec<(String, Json)>, key: &str) -> (r: Option<usize>)
    ensures
        match r {
            Some(i) => i < members@.len() && member(members@, key@) == Some(members@[i as int].1),
            None => member(members@, key@) is None,
        },
{
    let mut i: usize = 0;
    assert(members@ =~= members@.subrange(0, members@.len() as int));
    while i < members.len()
        invariant
            i <= members@.len(),
            member(members@, key@) == member(members@.subrange(i as int, members@.len() as int), key@),
        decreases members@.len() - i,
    {
        assert(members@.subrange(i as int + 1, members@.len() as int)
            =~= members@.subrange(i as int, members@.len() as int).drop_first());
        if same_text(members[i].0.as_str(), key) {
            return Some(i);
        }
        i = i + 1;
    }
    None
}

impl Json {
    /// The member `key` of an object; `None` for a value that is no object or
    /// has no such member.
    pub open spec fn field(self, key: Seq<char>) -> Option<Json> {
        match self {
            Json::Object(members) => member(members@, key),
            _ => None,
        }
    }

    /// Looks up the member `key` of an object.
    pub fn get(&self, key: &str) -> (r: Option<&Json>)
        ensures
            match r {
                Some(v) => self.field(key@) == Some(*v),
                None => self.field(key@) is None,
            },
    {
        match self {
            Json::Object(members) => match position(members, key) {
                Some(i) => Some(&members[i].1),
                None => None,
            },
            _ => None,
        }
    }

    /// Takes the member `key` out of an object, consuming the value.
    pub fn into_field(self, key: &str) -> (r: Option<Json>)
        ensures
            r == self.field(key@),
    {
        match self {
            Json::Object(members) => match position(&members, key) {
                Some(i) => {
                    let mut members = members;
                    let (_, v) = members.remove(i);
                    Some(v)
                },
                None => None,
            },
            _ => None,
        }
    }
}

} // verus!
