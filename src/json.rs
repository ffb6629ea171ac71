//! A plain structured value, as carried in request bodies and response
//! envelopes.

use vstd::prelude::*;

verus! {

/// A JSON number kept without loss: integers as integers, anything else as
/// the decimal text the remote side sent.
#[derive(Debug, PartialEq)]
pub enum Number {
    Int(i64),
    Decimal(String),
}

impl Clone for Number {
    fn clone(&self) -> (r: Number)
        ensures
            r == *self,
    {
        match self {
            Number::Int(n) => Number::Int(*n),
            Number::Decimal(s) => Number::Decimal(s.clone()),
        }
    }
}

/// A JSON value. Object members keep the order in which they were received.
#[derive(Debug, PartialEq)]
pub enum Json {
    Null,
    Bool(bool),
    Number(Number),
    Str(String),
    Array(Vec<Json>),
    Object(Vec<(String, Json)>),
}

impl Json {
    /// A copy of this value, member by member.
    pub fn deep_copy(&self) -> (r: Json)
        decreases self,
    {
        match self {
            Json::Null => Json::Null,
            Json::Bool(b) => Json::Bool(*b),
            Json::Number(n) => Json::Number(n.clone()),
            Json::Str(s) => Json::Str(s.clone()),
            Json::Array(items) => {
                let mut out: Vec<Json> = Vec::new();
                let mut i: usize = 0;
                while i < items.len()
                    invariant
                        i <= items.len(),
                        *self == Json::Array(*items),
                    decreases items.len() - i,
                {
                    proof {
                        assert(decreases_to!(*items => items[i as int]));
                        assert(decreases_to!(*self => self->Array_0));
                    }
                    out.push(items[i].deep_copy());
                    i = i + 1;
                }
                Json::Array(out)
            },
            Json::Object(members) => {
                let mut out: Vec<(String, Json)> = Vec::new();
                let mut i: usize = 0;
                while i < members.len()
                    invariant
                        i <= members.len(),
                        *self == Json::Object(*members),
                    decreases members.len() - i,
                {
                    proof {
                        assert(decreases_to!(*members => members[i as int]));
                        assert(decreases_to!(*self => self->Object_0));
                    }
                    out.push((members[i].0.clone(), members[i].1.deep_copy()));
                    i = i + 1;
                }
                Json::Object(out)
            },
        }
    }
}

impl Clone for Json {
    fn clone(&self) -> (r: Json) {
        self.deep_copy()
    }
}

/// The value of the first member named `key`, searching from position `i`.
pub open spec fn lookup_from(members: Seq<(String, Json)>, key: Seq<char>, i: int) -> Option<Json>
    decreases members.len() - i,
{
    if i < 0 || i >= members.len() {
        None
    } else if members[i].0@ == key {
        Some(members[i].1)
    } else {
        lookup_from(members, key, i + 1)
    }
}

/// The value of the first member named `key`.
pub open spec fn lookup(members: Seq<(String, Json)>, key: Seq<char>) -> Option<Json> {
    lookup_from(members, key, 0)
}

/// The member `key` of `j`, where `j` is an object.
pub open spec fn field(j: Json, key: Seq<char>) -> Option<Json> {
    match j {
        Json::Object(members) => lookup(members@, key),
        _ => None,
    }
}

/// Finds the first member named `key`.
pub fn get<'a>(members: &'a Vec<(String, Json)>, key: &str) -> (r: Option<&'a Json>)
    ensures
        match r {
            Some(v) => lookup(members@, key@) == Some(*v),
            None => lookup(members@, key@) is None,
        },
{
    let k = key.to_owned();
    let mut i: usize = 0;
    while i < members.len()
        invariant
            i <= members.len(),
            k@ == key@,
            lookup(members@, key@) == lookup_from(members@, key@, i as int),
        decreases members.len() - i,
    {
        if members[i].0 == k {
            return Some(&members[i].1);
        }
        i = i + 1;
    }
    None
}

/// The member `key` of `j`, where `j` is an object.
pub fn get_field<'a>(j: &'a Json, key: &str) -> (r: Option<&'a Json>)
    ensures
        match r {
            Some(v) => field(*j, key@) == Some(*v),
            None => field(*j, key@) is None,
        },
{
    match j {
        Json::Object(members) => get(members, key),
        _ => None,
    }
}

/// Removing a member named otherwise than `key` leaves the lookup of `key`
/// unchanged.
pub proof fn lemma_lookup_remove_other(members: Seq<(String, Json)>, k: int, key: Seq<char>)
    requires
        0 <= k < members.len(),
        members[k].0@ != key,
    ensures
        lookup(members.remove(k), key) == lookup(members, key),
{
    lemma_lookup_from_remove(members, k, key, 0);
}

proof fn lemma_lookup_from_remove(members: Seq<(String, Json)>, k: int, key: Seq<char>, i: int)
    requires
        0 <= k < members.len(),
        members[k].0@ != key,
        0 <= i,
    ensures
        i <= k ==> lookup_from(members.remove(k), key, i) == lookup_from(members, key, i),
        i >= k ==> lookup_from(members.remove(k), key, i) == lookup_from(members, key, i + 1),
    decreases members.len() - i,
{
    let r = members.remove(k);
    if i < r.len() {
        lemma_lookup_from_remove(members, k, key, i + 1);
    }
}

/// Takes the value of the first member named `key` out of `members`.
pub fn take(members: &mut Vec<(String, Json)>, key: &str) -> (r: Option<Json>)
    ensures
        r == lookup(old(members)@, key@),
        forall|other: Seq<char>|
            other != key@ ==> lookup(final(members)@, other) == lookup(old(members)@, other),
{
    let k = key.to_owned();
    let mut i: usize = 0;
    while i < members.len()
        invariant
            i <= members.len(),
            k@ == key@,
            members@ == old(members)@,
            lookup(members@, key@) == lookup_from(members@, key@, i as int),
        decreases members.len() - i,
    {
        if members[i].0 == k {
            let ghost before = members@;
            let (_, v) = members.remove(i);
            proof {
                assert forall|other: Seq<char>| other != key@ implies lookup(members@, other)
                    == lookup(before, other) by {
                    lemma_lookup_remove_other(before, i as int, other);
                }
            }
            return Some(v);
        }
        i = i + 1;
    }
    None
}

/// Appending a member leaves earlier lookups as they were and makes the new
/// member visible where its name was absent.
pub proof fn lemma_lookup_push(members: Seq<(String, Json)>, name: String, value: Json, key: Seq<char>)
    ensures
        lookup(members.push((name, value)), key) == if lookup(members, key) is Some {
            lookup(members, key)
        } else if name@ == key {
            Some(value)
        } else {
            None
        },
{
    lemma_lookup_from_push(members, name, value, key, 0);
}

proof fn lemma_lookup_from_push(
    members: Seq<(String, Json)>,
    name: String,
    value: Json,
    key: Seq<char>,
    i: int,
)
    requires
        0 <= i <= members.len(),
    ensures
        lookup_from(members.push((name, value)), key, i) == if lookup_from(members, key, i) is Some {
            lookup_from(members, key, i)
        } else if name@ == key {
            Some(value)
        } else {
            None
        },
    decreases members.len() - i,
{
    let p = members.push((name, value));
    if i < members.len() {
        assert(p[i] == members[i]);
        lemma_lookup_from_push(members, name, value, key, i + 1);
    } else {
        assert(p[i] == (name, value));
        assert(lookup_from(p, key, i + 1) is None);
        assert(lookup_from(members, key, i) is None);
    }
}

/// Appends the member `key` where `members` has none of that name.
pub fn put(members: &mut Vec<(String, Json)>, key: &str, value: Json)
    requires
        lookup(old(members)@, key@) is None,
    ensures
        lookup(final(members)@, key@) == Some(value),
        forall|other: Seq<char>|
            other != key@ ==> lookup(final(members)@, other) == lookup(old(members)@, other),
{
    let ghost before = members@;
    let name = key.to_owned();
    proof {
        assert forall|other: Seq<char>| lookup(before.push((name, value)), other) == if lookup(
            before,
            other,
        ) is Some {
            lookup(before, other)
        } else if name@ == other {
            Some(value)
        } else {
            None
        } by {
            lemma_lookup_push(before, name, value, other);
        }
    }
    members.push((name, value));
}

/// The value of `v` where it is a non-negative integer.
pub open spec fn u64_of(v: Json) -> Option<u64> {
    match v {
        Json::Number(Number::Int(n)) => if n >= 0 {
            Some(n as u64)
        } else {
            None
        },
        _ => None,
    }
}

/// Reads a non-negative integer.
pub fn as_u64(v: &Json) -> (r: Option<u64>)
    ensures
        r == u64_of(*v),
{
    match v {
        Json::Number(Number::Int(n)) => if *n >= 0 {
            Some(*n as u64)
        } else {
            None
        },
        _ => None,
    }
}

/// Encodes a count as a number.
pub fn from_u32(n: u32) -> (r: Json)
    ensures
        r == Json::Number(Number::Int(n as i64)),
{
    Json::Number(Number::Int(n as i64))
}

/// A member found by name is one of the members.
pub proof fn lemma_lookup_is_member(members: Seq<(String, Json)>, key: Seq<char>)
    requires
        lookup(members, key) is Some,
    ensures
        exists|p: int| 0 <= p < members.len() && members[p].1 == lookup(members, key)->Some_0,
{
    lemma_lookup_from_is_member(members, key, 0);
}

proof fn lemma_lookup_from_is_member(members: Seq<(String, Json)>, key: Seq<char>, i: int)
    requires
        lookup_from(members, key, i) is Some,
    ensures
        exists|p: int|
            0 <= p < members.len() && members[p].1 == lookup_from(members, key, i)->Some_0,
    decreases members.len() - i,
{
    if 0 <= i < members.len() && members[i].0@ != key {
        lemma_lookup_from_is_member(members, key, i + 1);
    }
}

/// A member of an object is smaller than the object, and so is every item
/// of a member that is a list.
pub proof fn lemma_field_decreases(j: Json, key: Seq<char>)
    ensures
        field(j, key) matches Some(v) ==> decreases_to!(j => v),
        field(j, key) matches Some(Json::Array(items)) ==> forall|i: int|
            0 <= i < items@.len() ==> decreases_to!(j => #[trigger] items@[i]),
{
    if let Some(v) = field(j, key) {
        let members = j->Object_0;
        lemma_lookup_is_member(members@, key);
        let p = choose|p: int| 0 <= p < members@.len() && members@[p].1 == v;
        assert(decreases_to!(j => j->Object_0));
        assert(decreases_to!(members => members@[p]));
        assert(decreases_to!(members@[p] => members@[p].1));
        assert(decreases_to!(j => v));
        if let Json::Array(items) = v {
            assert forall|i: int| 0 <= i < items@.len() implies decreases_to!(j => #[trigger] items@[i]) by {
                assert(decreases_to!(v => v->Array_0));
                assert(decreases_to!(items => items@[i]));
            }
        }
    }
}

} // verus!
