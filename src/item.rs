//! Replies of the per-item lookup service: a JSON document for a found item,
//! or the text "Not Found". The document is parsed by serde_json; the id and
//! the species name are read from it here.
use vstd::prelude::*;

use crate::error::CardError;
use crate::text::{chars_of, lower_of, parse_unsigned, parse_unsigned_from, string_from_chars, to_lowercase};

verus! {

/// For the JSON document that `body` holds, the compact JSON texts of its
/// `id` member and of the `name` member of its `species` member, `null` for a
/// missing one; `None` when the body holds no JSON document.
pub uninterp spec fn json_item_texts_of(body: Seq<char>) -> Option<(Seq<char>, Seq<char>)>;

/// Relies on `serde_json::from_str::<Value>`, its `Index<&str>` (which gives
/// `Value::Null` for a missing member) and its `Display` (compact JSON text):
/// the texts of `id` and of `species.name`; `None` where serde_json reports
/// an error.
#[verifier::external_body]
fn read_item_texts(body: &str) -> (r: Option<(String, String)>)
    ensures
        match r {
            Some((id_text, name_text)) => json_item_texts_of(body@) == Some((id_text@, name_text@)),
            None => json_item_texts_of(body@) is None,
        },
{
    match serde_json::from_str::<serde_json::Value>(body) {
        Ok(v) => Some((v["id"].to_string(), v["species"]["name"].to_string())),
        Err(_) => None,
    }
}

/// `s` with every `c` taken out.
pub open spec fn without_char(s: Seq<char>, c: char) -> Seq<char>
    decreases s.len(),
{
    if s.len() == 0 {
        s
    } else if s.last() == c {
        without_char(s.drop_last(), c)
    } else {
        without_char(s.drop_last(), c).push(s.last())
    }
}

/// `s` with every space replaced by a hyphen: the form in which the item
/// service takes a name.
pub open spec fn slug_of(s: Seq<char>) -> Seq<char> {
    s.map_values(|c: char| if c == ' ' { '-' } else { c })
}

/// The item read from the texts of its `id` and `species.name` members: the id
/// as a decimal integer, the name without quotes and in lower case; `None`
/// when the id is no such integer.
pub open spec fn item_fields(id_text: Seq<char>, name_text: Seq<char>) -> Option<(nat, Seq<char>)> {
    match parse_unsigned(id_text, 10, usize::MAX as nat) {
        Some(id) => Some((id, lower_of(without_char(name_text, '"')))),
        None => None,
    }
}

/// Whether a reply body is the service's "not found" answer, case aside.
pub open spec fn is_not_found(body: Seq<char>) -> bool {
    lower_of(body) == "not found"@
}

/// `s` with every `c` taken out.
pub fn remove_char(s: &str, c: char) -> (r: String)
    ensures
        r@ == without_char(s@, c),
{
    let chars = chars_of(s);
    let mut out: Vec<char> = Vec::new();
    let mut i: usize = 0;
    while i < chars.len()
        invariant
            i <= chars@.len(),
            chars@ == s@,
            out@ == without_char(chars@.subrange(0, i as int), c),
        decreases chars@.len() - i,
    {
        assert(chars@.subrange(0, i + 1).drop_last() =~= chars@.subrange(0, i as int));
        if chars[i] != c {
            out.push(chars[i]);
        }
        i = i + 1;
    }
    assert(chars@.subrange(0, chars@.len() as int) =~= chars@);
    string_from_chars(&out)
}

/// The name in the form the item service takes it: spaces become hyphens.
pub fn slug(name: &str) -> (r: String)
    ensures
        r@ == slug_of(name@),
{
    let chars = chars_of(name);
    let mut out: Vec<char> = Vec::new();
    let mut i: usize = 0;
    while i < chars.len()
        invariant
            i <= chars@.len(),
            chars@ == name@,
            out@ == slug_of(chars@.subrange(0, i as int)),
        decreases chars@.len() - i,
    {
        if chars[i] == ' ' {
            out.push('-');
        } else {
            out.push(chars[i]);
        }
        i = i + 1;
        assert(out@ =~= slug_of(chars@.subrange(0, i as int)));
    }
    assert(chars@.subrange(0, chars@.len() as int) =~= chars@);
    string_from_chars(&out)
}

/// An item of the lookup service: its catalog id and its species name.
#[derive(Debug)]
pub struct ItemRecord {
    pub id: usize,
    pub name: String,
}

/// The service's reply to one item request.
#[derive(Debug)]
pub enum ItemReply {
    Found(ItemRecord),
    NotFound,
}

impl View for ItemReply {
    type V = Option<(nat, Seq<char>)>;

    open spec fn view(&self) -> Option<(nat, Seq<char>)> {
        match self {
            ItemReply::Found(rec) => Some((rec.id as nat, rec.name@)),
            ItemReply::NotFound => None,
        }
    }
}

impl ItemRecord {
    /// The item read from the texts of its `id` and `species.name` members.
    pub fn from_fields(id_text: &str, name_text: &str) -> (r: Result<ItemRecord, CardError>)
        ensures
            r matches Ok(rec) ==> item_fields(id_text@, name_text@) == Some((rec.id as nat, rec.name@)),
            r matches Err(e) ==> item_fields(id_text@, name_text@) is None && e == CardError::MalformedResponse,
    {
        let id_chars = chars_of(id_text);
        assert(id_chars@.skip(0) =~= id_chars@);
        match parse_unsigned_from(&id_chars, 0, 10, usize::MAX) {
            Some(id) => {
                let unquoted = remove_char(name_text, '"');
                let name = to_lowercase(unquoted.as_str());
                Ok(ItemRecord { id, name })
            },
            None => Err(CardError::MalformedResponse),
        }
    }
}

impl ItemReply {
    /// Reads a reply body of the item service: "not found" in any case is
    /// `NotFound`; any other body must be a JSON document whose `id` member
    /// is a decimal integer, and gives the item with that id and its
    /// species name.
    pub fn from_body(body: &str) -> (r: Result<ItemReply, CardError>)
        ensures
            is_not_found(body@) ==> r matches Ok(ItemReply::NotFound),
            !is_not_found(body@) ==> match json_item_texts_of(body@) {
                None => r == Err::<ItemReply, CardError>(CardError::MalformedResponse),
                Some((id_text, name_text)) => match item_fields(id_text, name_text) {
                    Some((id, name)) => r matches Ok(ItemReply::Found(rec)) && rec.id as nat == id && rec.name@ == name,
                    None => r == Err::<ItemReply, CardError>(CardError::MalformedResponse),
                },
            },
    {
        let lowered = to_lowercase(body);
        let not_found = String::from_str("not found");
        if lowered == not_found {
            return Ok(ItemReply::NotFound);
        }
        match read_item_texts(body) {
            None => Err(CardError::MalformedResponse),
            Some((id_text, name_text)) => match ItemRecord::from_fields(id_text.as_str(), name_text.as_str()) {
                Ok(rec) => Ok(ItemReply::Found(rec)),
                Err(e) => Err(e),
            },
        }
    }
}

} // verus!
