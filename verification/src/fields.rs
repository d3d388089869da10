//! The values that a level file attaches to the entities it places, and the
//! bag of named fields that each placed entity carries.

use vstd::prelude::*;
use crate::assoc::{
    last_index_of, lemma_last_index_absent, lemma_last_index_found, lemma_last_index_in_range,
};
use crate::text::str_eq;

verus! {

/// A number as a level file writes it.
#[derive(Clone, Copy, Debug, PartialEq, Eq, Structural)]
pub enum Number {
    /// An integer that is zero or above.
    PosInt(u64),
    /// An integer below zero.
    NegInt(i64),
    /// Any other number, kept as the bits of its 64-bit floating-point form.
    Float(u64),
}

impl Number {
    /// The number as a signed 64-bit integer, where it is one.
    pub open spec fn spec_as_i64(self) -> Option<i64> {
        match self {
            Number::PosInt(u) => if u <= i64::MAX as u64 {
                Some(u as i64)
            } else {
                None
            },
            Number::NegInt(i) => Some(i),
            Number::Float(_) => None,
        }
    }

    /// The number as a signed 64-bit integer; `None` for an integer too large
    /// for that type and for a number that is not an integer.
    pub fn as_i64(&self) -> (r: Option<i64>)
        ensures
            r == self.spec_as_i64(),
    {
        match self {
            Number::PosInt(u) => {
                if *u <= i64::MAX as u64 {
                    Some(*u as i64)
                } else {
                    None
                }
            },
            Number::NegInt(i) => Some(*i),
            Number::Float(_) => None,
        }
    }
}

/// A value of a field, as placed in the level file.
#[derive(Debug)]
pub enum FieldValue {
    Null,
    Bool(bool),
    Number(Number),
    String(String),
    Array(Vec<FieldValue>),
    /// Named members in the order written; of two members with one name the
    /// later one counts.
    Object(Vec<(String, FieldValue)>),
}

/// What a `FieldValue` holds, as a mathematical value.
pub enum FieldData {
    Null,
    Bool(bool),
    Number(Number),
    Text(Seq<char>),
    Array(Seq<FieldData>),
    Object(Seq<(Seq<char>, FieldData)>),
}

/// What a bag of fields holds, as a mathematical value: for each name in
/// the bag the value under it, if the field has one.
pub type FieldMap = Map<Seq<char>, Option<FieldData>>;

/// The names of a list of named items, in order.
pub open spec fn keys_of<T>(entries: Seq<(String, T)>) -> Seq<Seq<char>> {
    Seq::new(entries.len(), |i: int| entries[i].0@)
}

impl FieldData {
    /// The value as a signed 64-bit integer, where it is a number that is one.
    pub open spec fn as_i64(self) -> Option<i64> {
        match self {
            FieldData::Number(n) => n.spec_as_i64(),
            _ => None,
        }
    }

    /// The names of an object's members, in order; empty for any other value.
    pub open spec fn member_names(self) -> Seq<Seq<char>> {
        match self {
            FieldData::Object(members) => Seq::new(members.len(), |i: int| members[i].0),
            _ => Seq::empty(),
        }
    }

    /// The member of an object that goes by `key`, if the value is an object
    /// and has one.
    pub open spec fn member(self, key: Seq<char>) -> Option<FieldData> {
        match self {
            FieldData::Object(members) => match last_index_of(self.member_names(), key) {
                Some(i) => Some(members[i].1),
                None => None,
            },
            _ => None,
        }
    }
}

impl FieldValue {
    /// What the value holds.
    pub open spec fn data(self) -> FieldData
        decreases self,
    {
        match self {
            FieldValue::Null => FieldData::Null,
            FieldValue::Bool(b) => FieldData::Bool(b),
            FieldValue::Number(n) => FieldData::Number(n),
            FieldValue::String(s) => FieldData::Text(s@),
            FieldValue::Array(items) => FieldData::Array(
                Seq::new(
                    items@.len(),
                    |i: int|
                        if 0 <= i < items@.len() {
                            items@[i].data()
                        } else {
                            FieldData::Null
                        },
                ),
            ),
            FieldValue::Object(members) => FieldData::Object(
                Seq::new(
                    members@.len(),
                    |i: int|
                        if 0 <= i < members@.len() {
                            (members@[i].0@, members@[i].1.data())
                        } else {
                            (Seq::empty(), FieldData::Null)
                        },
                ),
            ),
        }
    }
}

impl View for FieldValue {
    type V = FieldData;

    open spec fn view(&self) -> FieldData {
        self.data()
    }
}

impl DeepView for FieldValue {
    type V = FieldData;

    open spec fn deep_view(&self) -> FieldData {
        self.data()
    }
}

/// The position of the last item of `entries` named `key`.
pub fn find_key<T>(entries: &Vec<(String, T)>, key: &str) -> (found: Option<usize>)
    ensures
        match found {
            Some(i) => i < entries@.len() && last_index_of(keys_of(entries@), key@) == Some(
                i as int,
            ),
            None => last_index_of(keys_of(entries@), key@) is None,
        },
{
    let mut i: usize = entries.len();
    while i > 0
        invariant
            i <= entries@.len(),
            forall|j: int| i <= j < entries@.len() ==> keys_of(entries@)[j] != key@,
        decreases i,
    {
        i -= 1;
        if str_eq(entries[i].0.as_str(), key) {
            proof {
                lemma_last_index_found(keys_of(entries@), key@, i as int);
            }
            return Some(i);
        }
    }
    proof {
        lemma_last_index_absent(keys_of(entries@), key@);
    }
    None
}

impl FieldValue {
    /// The value as a signed 64-bit integer, where it is a number that is one.
    pub fn as_i64(&self) -> (r: Option<i64>)
        ensures
            r == self@.as_i64(),
    {
        match self {
            FieldValue::Number(n) => n.as_i64(),
            _ => None,
        }
    }

    /// The number, where the value is one.
    pub fn as_number(&self) -> (r: Option<Number>)
        ensures
            match r {
                Some(n) => self@ == FieldData::Number(n),
                None => !(self@ is Number),
            },
    {
        match self {
            FieldValue::Number(n) => Some(*n),
            _ => None,
        }
    }

    /// The text, where the value is a string.
    pub fn as_str(&self) -> (r: Option<&str>)
        ensures
            match r {
                Some(s) => self@ == FieldData::Text(s@),
                None => !(self@ is Text),
            },
    {
        match self {
            FieldValue::String(s) => Some(s.as_str()),
            _ => None,
        }
    }

    /// The items, where the value is an array.
    pub fn as_array(&self) -> (r: Option<&Vec<FieldValue>>)
        ensures
            match r {
                Some(items) => {
                    &&& self@ is Array
                    &&& self@->Array_0.len() == items@.len()
                    &&& forall|i: int|
                        0 <= i < items@.len() ==> #[trigger] self@->Array_0[i] == items@[i]@
                },
                None => !(self@ is Array),
            },
    {
        match self {
            FieldValue::Array(items) => Some(items),
            _ => None,
        }
    }

    /// The member named `key`, where the value is an object that has one.
    pub fn member(&self, key: &str) -> (r: Option<&FieldValue>)
        ensures
            match r {
                Some(v) => self@.member(key@) == Some(v@),
                None => self@.member(key@) is None,
            },
    {
        match self {
            FieldValue::Object(members) => {
                assert(self@.member_names() =~= keys_of(members@));
                match find_key(members, key) {
                    Some(i) => Some(&members[i].1),
                    None => None,
                }
            },
            _ => None,
        }
    }
}

impl Clone for FieldValue {
    /// A copy that holds the same data.
    fn clone(&self) -> (copy: FieldValue)
        ensures
            copy@ == self@,
        decreases self,
    {
        match self {
            FieldValue::Null => FieldValue::Null,
            FieldValue::Bool(b) => FieldValue::Bool(*b),
            FieldValue::Number(n) => FieldValue::Number(*n),
            FieldValue::String(s) => FieldValue::String(s.clone()),
            FieldValue::Array(items) => {
                let mut copies: Vec<FieldValue> = Vec::new();
                let mut i: usize = 0;
                while i < items.len()
                    invariant
                        i <= items@.len(),
                        copies@.len() == i,
                        forall|j: int| 0 <= j < i ==> copies@[j]@ == items@[j]@,
                        forall|j: int| 0 <= j < items@.len() ==> decreases_to!(self => items@[j]),
                    decreases items@.len() - i,
                {
                    let copy = items[i].clone();
                    copies.push(copy);
                    i += 1;
                }
                let copy = FieldValue::Array(copies);
                assert(copy@->Array_0 =~= self@->Array_0);
                copy
            },
            FieldValue::Object(members) => {
                let mut copies: Vec<(String, FieldValue)> = Vec::new();
                let mut i: usize = 0;
                while i < members.len()
                    invariant
                        i <= members@.len(),
                        copies@.len() == i,
                        forall|j: int|
                            0 <= j < i ==> copies@[j].0@ == members@[j].0@ && copies@[j].1@
                                == members@[j].1@,
                        forall|j: int|
                            0 <= j < members@.len() ==> decreases_to!(self => members@[j].1),
                    decreases members@.len() - i,
                {
                    let name = members[i].0.clone();
                    let value = members[i].1.clone();
                    copies.push((name, value));
                    i += 1;
                }
                let copy = FieldValue::Object(copies);
                assert(copy@->Object_0 =~= self@->Object_0);
                copy
            },
        }
    }
}

/// The fields of one placed entity: each a name and a value that may be
/// missing. Of two fields put in under one name the later one counts.
#[derive(Debug)]
pub struct FieldBag {
    entries: Vec<(String, Option<FieldValue>)>,
}

impl View for FieldBag {
    type V = FieldMap;

    closed spec fn view(&self) -> FieldMap {
        Map::new(
            |k: Seq<char>| last_index_of(keys_of(self.entries@), k) is Some,
            |k: Seq<char>|
                self.entries@[last_index_of(keys_of(self.entries@), k).unwrap()].1.deep_view(),
        )
    }
}

impl DeepView for FieldBag {
    type V = FieldMap;

    open spec fn deep_view(&self) -> FieldMap {
        self@
    }
}

impl FieldBag {
    /// A bag with no field.
    pub fn new() -> (bag: FieldBag)
        ensures
            bag@ == FieldMap::empty(),
    {
        let bag = FieldBag { entries: Vec::new() };
        assert(bag@ =~= FieldMap::empty());
        bag
    }

    /// Puts a field in, in place of any field of that name.
    pub fn insert(&mut self, name: String, value: Option<FieldValue>)
        ensures
            final(self)@ == old(self)@.insert(name@, value.deep_view()),
    {
        let ghost before = self.entries@;
        self.entries.push((name, value));
        proof {
            let after = self.entries@;
            assert(keys_of(after).drop_last() =~= keys_of(before));
            assert forall|k: Seq<char>|
                #[trigger] last_index_of(keys_of(after), k) == (if k == name@ {
                    Some(before.len() as int)
                } else {
                    last_index_of(keys_of(before), k)
                }) by {}
            assert forall|k: Seq<char>| k != name@ implies match #[trigger] last_index_of(
                keys_of(before),
                k,
            ) {
                Some(i) => 0 <= i < before.len() && after[i] == before[i],
                None => true,
            } by {
                lemma_last_index_in_range(keys_of(before), k);
            }
            assert(self@ =~= old(self)@.insert(name@, value.deep_view()));
        }
    }

    /// The value of the field named `name`: `None` where the bag has no such
    /// field, `Some(None)` where it has one without a value.
    pub fn get(&self, name: &str) -> (r: Option<&Option<FieldValue>>)
        ensures
            match r {
                Some(v) => self@.contains_key(name@) && self@[name@] == v.deep_view(),
                None => !self@.contains_key(name@),
            },
    {
        match find_key(&self.entries, name) {
            Some(i) => Some(&self.entries[i].1),
            None => None,
        }
    }
}

impl Clone for FieldBag {
    /// A copy that holds the same fields.
    fn clone(&self) -> (copy: FieldBag)
        ensures
            copy@ == self@,
    {
        let mut entries: Vec<(String, Option<FieldValue>)> = Vec::new();
        let mut i: usize = 0;
        while i < self.entries.len()
            invariant
                i <= self.entries@.len(),
                entries@.len() == i,
                forall|j: int|
                    0 <= j < i ==> entries@[j].0@ == self.entries@[j].0@
                        && entries@[j].1.deep_view() == self.entries@[j].1.deep_view(),
            decreases self.entries@.len() - i,
        {
            let name = self.entries[i].0.clone();
            let value = match &self.entries[i].1 {
                Some(v) => Some(v.clone()),
                None => None,
            };
            entries.push((name, value));
            i += 1;
        }
        let copy = FieldBag { entries };
        proof {
            assert(keys_of(copy.entries@) =~= keys_of(self.entries@));
            assert forall|k: Seq<char>|
                match #[trigger] last_index_of(keys_of(self.entries@), k) {
                    Some(i) => 0 <= i < self.entries@.len(),
                    None => true,
                } by {
                lemma_last_index_in_range(keys_of(self.entries@), k);
            }
            assert(copy@ =~= self@);
        }
        copy
    }
}

} // verus!
