//! The bulk name dataset: a CSV table with one row per species and language,
//! under the columns `pokemon_species_id`, `local_language_id`, `name` and
//! `genus`. Rows are read by the csv crate; the columns are located by their
//! header and each row is checked and scanned here.
use vstd::prelude::*;

use crate::error::CardError;
use crate::text::{chars_of, lower_of, parse_unsigned, parse_unsigned_from, to_lowercase};

verus! {

/// What the csv crate reads from `text`, the header row included: for each
/// record its fields, or `None` for a record that csv reports as an error.
pub uninterp spec fn csv_records_of(text: Seq<char>) -> Seq<Option<Seq<Seq<char>>>>;

/// Relies on csv's `Reader::records`, with the header row read as an ordinary
/// record: every record of the text in order, each with its fields or, where
/// csv reports an error for it, `None`.
#[verifier::external_body]
pub(crate) fn read_csv_records(text: &str) -> (r: Vec<Option<Vec<String>>>)
    ensures
        r.deep_view() == csv_records_of(text@),
{
    csv::ReaderBuilder::new()
        .has_headers(false)
        .from_reader(text.as_bytes())
        .records()
        .map(|rec| rec.ok().map(|fields| fields.iter().map(String::from).collect()))
        .collect()
}

/// The one column of `header` named `name`; `None` when no column or more
/// than one has that name.
#[verifier::opaque]
pub open spec fn column_of(header: Seq<Seq<char>>, name: Seq<char>) -> Option<int> {
    if exists|j: int|
        0 <= j < header.len() && header[j] == name && forall|k: int|
            0 <= k < header.len() && header[k] == name ==> k == j
    {
        Some(
            choose|j: int|
                0 <= j < header.len() && header[j] == name && forall|k: int|
                    0 <= k < header.len() && header[k] == name ==> k == j,
        )
    } else {
        None
    }
}

/// An integer field as the dataset's reader takes it: hexadecimal after a
/// `0x` prefix, decimal otherwise.
pub open spec fn field_uint(field: Seq<char>, max: nat) -> Option<nat> {
    if field.len() >= 2 && field[0] == '0' && field[1] == 'x' {
        parse_unsigned(field.skip(2), 16, max)
    } else {
        parse_unsigned(field, 10, max)
    }
}

/// A row of the name dataset: species id, language id and name.
pub struct NameRow {
    pub species_id: u32,
    pub language_id: u8,
    pub name: String,
}

/// The positions of the dataset's columns in a header row.
pub struct Columns {
    pub species: usize,
    pub language: usize,
    pub name: usize,
    pub genus: usize,
}

/// The header of the records: their first record, or no columns at all.
pub open spec fn header_of(records: Seq<Option<Seq<Seq<char>>>>) -> Seq<Seq<char>> {
    if records.len() > 0 && records[0] is Some {
        records[0]->0
    } else {
        Seq::empty()
    }
}

/// The columns of the dataset located in `header`, if each of them is there.
pub open spec fn columns_of(header: Seq<Seq<char>>) -> Option<(int, int, int, int)> {
    match (
        column_of(header, "pokemon_species_id"@),
        column_of(header, "local_language_id"@),
        column_of(header, "name"@),
        column_of(header, "genus"@),
    ) {
        (Some(s), Some(l), Some(n), Some(g)) => Some((s, l, n, g)),
        _ => None,
    }
}

/// The dataset row that the fields `row` hold under `header`: species id, language
/// id and name; `None` when a column is missing or an id is no valid integer.
pub open spec fn decode_row(header: Seq<Seq<char>>, row: Seq<Seq<char>>) -> Option<(nat, nat, Seq<char>)> {
    match columns_of(header) {
        Some((s, l, n, g)) => if s < row.len() && l < row.len() && n < row.len() && g < row.len() {
            match (field_uint(row[s], u32::MAX as nat), field_uint(row[l], u8::MAX as nat)) {
                (Some(species), Some(language)) => Some((species, language, row[n])),
                _ => None,
            }
        } else {
            None
        },
        None => None,
    }
}

/// Scans the data rows from position `i` on for the first whose name equals
/// `search` when both are lowercased; a row that cannot be read before that
/// one is found makes the scan fail.
pub open spec fn species_scan(records: Seq<Option<Seq<Seq<char>>>>, search: Seq<char>, i: int) -> Result<Option<nat>, CardError>
    decreases records.len() - i,
{
    if i < 1 || i >= records.len() {
        Ok(None)
    } else {
        match records[i] {
            None => Err(CardError::MalformedResponse),
            Some(row) => match decode_row(header_of(records), row) {
                None => Err(CardError::MalformedResponse),
                Some((species, _, name)) => if lower_of(name) == lower_of(search) {
                    Ok(Some(species))
                } else {
                    species_scan(records, search, i + 1)
                },
            },
        }
    }
}

/// The species id of the first data row named `search`, case aside.
pub open spec fn species_by_name(records: Seq<Option<Seq<Seq<char>>>>, search: Seq<char>) -> Result<Option<nat>, CardError> {
    species_scan(records, search, 1)
}

/// Scans the data rows from position `i` on for the first of species `species`
/// in language `language`; a row that cannot be read before that one is found
/// makes the scan fail.
pub open spec fn name_scan(records: Seq<Option<Seq<Seq<char>>>>, species: nat, language: nat, i: int) -> Result<Option<Seq<char>>, CardError>
    decreases records.len() - i,
{
    if i < 1 || i >= records.len() {
        Ok(None)
    } else {
        match records[i] {
            None => Err(CardError::MalformedResponse),
            Some(row) => match decode_row(header_of(records), row) {
                None => Err(CardError::MalformedResponse),
                Some((s, l, name)) => if s == species && l == language {
                    Ok(Some(name))
                } else {
                    name_scan(records, species, language, i + 1)
                },
            },
        }
    }
}

/// The name in language `language` of species `species`, from the first data row that has it.
pub open spec fn name_by_species(records: Seq<Option<Seq<Seq<char>>>>, species: nat, language: nat) -> Result<Option<Seq<char>>, CardError> {
    name_scan(records, species, language, 1)
}

/// The position of the one column named `name` in `header`.
fn find_column(header: &Vec<String>, name: &str) -> (r: Option<usize>)
    ensures
        r matches Some(j) ==> column_of(header.deep_view(), name@) == Some(j as int),
        r is None ==> column_of(header.deep_view(), name@) is None,
{
    let ghost h = header.deep_view();
    let target = name.to_owned();
    let mut found: Option<usize> = None;
    let mut i: usize = 0;
    while i < header.len()
        invariant
            i <= header@.len(),
            h == header.deep_view(),
            h.len() == header@.len(),
            target@ == name@,
            found matches Some(j) ==> j < i && h[j as int] == name@ && forall|k: int|
                0 <= k < i && h[k] == name@ ==> k == j,
            found is None ==> forall|k: int| 0 <= k < i ==> h[k] != name@,
        decreases header@.len() - i,
    {
        assert(h[i as int] == header@[i as int]@);
        if header[i] == target {
            match found {
                Some(j) => {
                    proof {
                        reveal(column_of);
                        if exists|c: int|
                            0 <= c < h.len() && h[c] == name@ && forall|k: int|
                                0 <= k < h.len() && h[k] == name@ ==> k == c
                        {
                            let c = choose|c: int|
                                0 <= c < h.len() && h[c] == name@ && forall|k: int|
                                    0 <= k < h.len() && h[k] == name@ ==> k == c;
                            assert(h[j as int] == name@);
                            assert(h[i as int] == name@);
                        }
                    }
                    return None;
                },
                None => {
                    found = Some(i);
                },
            }
        }
        i = i + 1;
    }
    proof {
        reveal(column_of);
        match found {
            Some(j) => {
                assert(0 <= j < h.len() && h[j as int] == name@ && forall|k: int|
                    0 <= k < h.len() && h[k] == name@ ==> k == j);
                let c = choose|c: int|
                    0 <= c < h.len() && h[c] == name@ && forall|k: int|
                        0 <= k < h.len() && h[k] == name@ ==> k == c;
                assert(h[j as int] == name@);
            },
            None => {},
        }
    }
    found
}

/// Locates the dataset's columns in a header row.
pub fn find_columns(header: &Vec<String>) -> (r: Option<Columns>)
    ensures
        r matches Some(c) ==> columns_of(header.deep_view()) == Some(
            (c.species as int, c.language as int, c.name as int, c.genus as int),
        ),
        r is None ==> columns_of(header.deep_view()) is None,
{
    let species = find_column(header, "pokemon_species_id");
    let language = find_column(header, "local_language_id");
    let name = find_column(header, "name");
    let genus = find_column(header, "genus");
    match (species, language, name, genus) {
        (Some(s), Some(l), Some(n), Some(g)) => Some(Columns { species: s, language: l, name: n, genus: g }),
        _ => None,
    }
}

/// Reads an integer field of at most `max`: hexadecimal after `0x`, decimal otherwise.
pub fn parse_field_uint(field: &str, max: usize) -> (r: Option<usize>)
    ensures
        r matches Some(v) ==> field_uint(field@, max as nat) == Some(v as nat),
        r is None ==> field_uint(field@, max as nat) is None,
{
    let chars = chars_of(field);
    assert(chars@.skip(0) =~= chars@);
    if chars.len() >= 2 && chars[0] == '0' && chars[1] == 'x' {
        parse_unsigned_from(&chars, 2, 16, max)
    } else {
        parse_unsigned_from(&chars, 0, 10, max)
    }
}

/// The dataset row held by the fields `row`, with the columns found in `header`.
pub fn decode_name_row(header: &Vec<String>, row: &Vec<String>) -> (r: Option<NameRow>)
    ensures
        r matches Some(x) ==> decode_row(header.deep_view(), row.deep_view()) == Some(
            (x.species_id as nat, x.language_id as nat, x.name@),
        ),
        r is None ==> decode_row(header.deep_view(), row.deep_view()) is None,
{
    let columns = match find_columns(header) {
        Some(c) => c,
        None => return None,
    };
    let n = row.len();
    if columns.species >= n || columns.language >= n || columns.name >= n || columns.genus >= n {
        return None;
    }
    let species = parse_field_uint(row[columns.species].as_str(), u32::MAX as usize);
    let language = parse_field_uint(row[columns.language].as_str(), u8::MAX as usize);
    match (species, language) {
        (Some(s), Some(l)) => Some(NameRow {
            species_id: s as u32,
            language_id: l as u8,
            name: row[columns.name].clone(),
        }),
        _ => None,
    }
}

/// The header of CSV records: their first record, or no columns.
fn header_row(records: &Vec<Option<Vec<String>>>) -> (r: Vec<String>)
    ensures
        r.deep_view() == header_of(records.deep_view()),
{
    if records.len() > 0 {
        match &records[0] {
            Some(h) => {
                let c = h.clone();
                assert(c.deep_view() =~= h.deep_view()) by {
                    assert(forall|k: int| 0 <= k < c@.len() ==> c@[k]@ == h@[k]@);
                }
                c
            },
            None => Vec::new(),
        }
    } else {
        let v: Vec<String> = Vec::new();
        assert(v.deep_view() =~= Seq::<Seq<char>>::empty());
        v
    }
}

/// The species id of the first data row named `search_name`, case aside, in
/// CSV records read with their header; `Ok(None)` when no row has that name.
pub fn species_id_in_records(records: &Vec<Option<Vec<String>>>, search_name: &str) -> (r: Result<Option<u32>, CardError>)
    ensures
        r matches Ok(Some(v)) ==> species_by_name(records.deep_view(), search_name@) == Ok::<Option<nat>, CardError>(Some(v as nat)),
        r matches Ok(None) ==> species_by_name(records.deep_view(), search_name@) == Ok::<Option<nat>, CardError>(None),
        r matches Err(e) ==> species_by_name(records.deep_view(), search_name@) == Err::<Option<nat>, CardError>(e),
{
    let ghost recs = records.deep_view();
    let header = header_row(records);
    let search = to_lowercase(search_name);
    let mut i: usize = 1;
    while i < records.len()
        invariant
            1 <= i,
            recs == records.deep_view(),
            recs.len() == records@.len(),
            header.deep_view() == header_of(recs),
            search@ == lower_of(search_name@),
            species_by_name(recs, search_name@) == species_scan(recs, search_name@, i as int),
        decreases records@.len() - i,
    {
        assert(recs[i as int] == records@[i as int].deep_view());
        match &records[i] {
            None => return Err(CardError::MalformedResponse),
            Some(row) => match decode_name_row(&header, row) {
                None => return Err(CardError::MalformedResponse),
                Some(rec) => {
                    let name = to_lowercase(rec.name.as_str());
                    if name == search {
                        return Ok(Some(rec.species_id));
                    }
                },
            },
        }
        i = i + 1;
    }
    Ok(None)
}

/// The name in language `language_id` of species `species_id`, from the first
/// data row that has it, in CSV records read with their header.
pub fn name_in_records(records: &Vec<Option<Vec<String>>>, species_id: u32, language_id: u8) -> (r: Result<Option<String>, CardError>)
    ensures
        r matches Ok(Some(v)) ==> name_by_species(records.deep_view(), species_id as nat, language_id as nat) == Ok::<Option<Seq<char>>, CardError>(Some(v@)),
        r matches Ok(None) ==> name_by_species(records.deep_view(), species_id as nat, language_id as nat) == Ok::<Option<Seq<char>>, CardError>(None),
        r matches Err(e) ==> name_by_species(records.deep_view(), species_id as nat, language_id as nat) == Err::<Option<Seq<char>>, CardError>(e),
{
    let ghost recs = records.deep_view();
    let header = header_row(records);
    let mut i: usize = 1;
    while i < records.len()
        invariant
            1 <= i,
            recs == records.deep_view(),
            recs.len() == records@.len(),
            header.deep_view() == header_of(recs),
            name_by_species(recs, species_id as nat, language_id as nat) == name_scan(recs, species_id as nat, language_id as nat, i as int),
        decreases records@.len() - i,
    {
        assert(recs[i as int] == records@[i as int].deep_view());
        match &records[i] {
            None => return Err(CardError::MalformedResponse),
            Some(row) => match decode_name_row(&header, row) {
                None => return Err(CardError::MalformedResponse),
                Some(rec) => {
                    if rec.species_id == species_id && rec.language_id == language_id {
                        return Ok(Some(rec.name));
                    }
                },
            },
        }
        i = i + 1;
    }
    Ok(None)
}

} // verus!
