//! The override table: a hand-kept map from catalog index to the name under
//! which the name dataset lists the item, for items whose service name does
//! not match the dataset. It is read from a JSON object whose keys are
//! indices; keys starting with `_` are comments.
use std::collections::HashMap;

use vstd::prelude::*;

use crate::text::{chars_of, parse_unsigned, parse_unsigned_from};

verus! {

broadcast use vstd::std_specs::hash::group_hash_axioms;

/// The members of the JSON object that `text` holds, each key with the
/// member's value when that value is a JSON string, in the order of
/// serde_json's map (keys sorted); `None` when the text holds no JSON object.
pub uninterp spec fn json_members_of(text: Seq<char>) -> Option<Seq<(Seq<char>, Option<Seq<char>>)>>;

/// Relies on `serde_json::from_str::<Value>`: the members of the object the
/// text holds, in its map's order, each key with its value when the value is
/// a string; `None` when serde_json reports an error or the value is no object.
#[verifier::external_body]
fn read_json_members(text: &str) -> (r: Option<Vec<(String, Option<String>)>>)
    ensures
        r.deep_view() == json_members_of(text@),
{
    match serde_json::from_str::<serde_json::Value>(text) {
        Ok(serde_json::Value::Object(m)) => Some(
            m.into_iter().map(|(k, v)| match v {
                serde_json::Value::String(s) => (k, Some(s)),
                _ => (k, None),
            }).collect(),
        ),
        _ => None,
    }
}

/// The table that a list of members gives: each member whose key does not
/// start with `_` and is a positive decimal index, and whose value is a string, maps
/// that index to the string; a later member overrides an earlier one.
pub open spec fn overrides_of(members: Seq<(Seq<char>, Option<Seq<char>>)>) -> Map<usize, Seq<char>>
    decreases members.len(),
{
    if members.len() == 0 {
        Map::empty()
    } else {
        let m = overrides_of(members.drop_last());
        let key = members.last().0;
        let value = members.last().1;
        if key.len() > 0 && key[0] == '_' {
            m
        } else {
            match (parse_unsigned(key, 10, usize::MAX as nat), value) {
                (Some(id), Some(name)) => if id > 0 {
                    m.insert(id as usize, name)
                } else {
                    m
                },
                _ => m,
            }
        }
    }
}

/// Read-only map from catalog index to override lookup name.
#[derive(Debug)]
pub struct OverrideTable {
    entries: HashMap<usize, String>,
}

impl View for OverrideTable {
    type V = Map<usize, Seq<char>>;

    closed spec fn view(&self) -> Map<usize, Seq<char>> {
        self.entries@.map_values(|s: String| s@)
    }
}

impl OverrideTable {
    /// A table with no overrides.
    pub fn new() -> (r: OverrideTable)
        ensures
            r@ == Map::<usize, Seq<char>>::empty(),
    {
        let r = OverrideTable { entries: HashMap::new() };
        assert(r@ =~= Map::<usize, Seq<char>>::empty());
        r
    }

    /// The table that the members of a JSON object give, each a key and, when
    /// the member's value is a string, that string.
    pub fn from_members(members: &Vec<(String, Option<String>)>) -> (r: OverrideTable)
        ensures
            r@ == overrides_of(members.deep_view()),
    {
        let ghost ms = members.deep_view();
        let mut table = OverrideTable::new();
        let mut i: usize = 0;
        while i < members.len()
            invariant
                i <= members@.len(),
                ms == members.deep_view(),
                ms.len() == members@.len(),
                table@ == overrides_of(ms.subrange(0, i as int)),
            decreases members@.len() - i,
        {
            let ghost before = table@;
            assert(ms.subrange(0, i + 1).drop_last() =~= ms.subrange(0, i as int));
            assert(ms[i as int] == members@[i as int].deep_view());
            let (key, value) = &members[i];
            let key_chars = chars_of(key.as_str());
            assert(key_chars@.skip(0) =~= key_chars@);
            let comment = key_chars.len() > 0 && key_chars[0] == '_';
            if !comment {
                match (parse_unsigned_from(&key_chars, 0, 10, usize::MAX), value) {
                    (Some(id), Some(name)) if id > 0 => {
                        table.entries.insert(id, name.clone());
                        assert(table@ =~= before.insert(id, name@));
                    },
                    _ => {},
                }
            }
            i = i + 1;
        }
        assert(ms.subrange(0, ms.len() as int) =~= ms);
        table
    }

    /// The table held in a JSON object text; a text that holds no JSON object
    /// gives the empty table.
    pub fn from_json(text: &str) -> (r: OverrideTable)
        ensures
            r@ == overrides_of(
                match json_members_of(text@) {
                    Some(members) => members,
                    None => Seq::empty(),
                },
            ),
    {
        match read_json_members(text) {
            Some(members) => OverrideTable::from_members(&members),
            None => {
                let r = OverrideTable::new();
                assert(overrides_of(Seq::<(Seq<char>, Option<Seq<char>>)>::empty()) =~= Map::<usize, Seq<char>>::empty());
                r
            },
        }
    }

    /// The override name for the catalog index, if the table has one.
    pub fn lookup(&self, index: usize) -> (r: Option<String>)
        ensures
            r is None <==> !self@.contains_key(index),
            r matches Some(s) ==> s@ == self@[index],
    {
        match self.entries.get(&index) {
            Some(s) => Some(s.clone()),
            None => None,
        }
    }
}

} // verus!
