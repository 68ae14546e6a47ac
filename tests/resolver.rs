use card_binder::item::ItemReply;
use card_binder::overrides::OverrideTable;
use card_binder::pokeapi::{IdLookup, NameLookup, NameRecord, Reply, Request, Step};
use card_binder::{CardError, Index};

const DATASET: &str = "pokemon_species_id,local_language_id,name,genus\n1,9,bulbasaur,Seed Pokémon\n1,6,Bisasam,Samen-Pokémon\n122,9,mr. mime,Barrier Pokémon\n122,6,Pantimos,Barriere-Pokémon\n25,9,pikachu,Mouse Pokémon";

/// A service that knows one item, under both its index and its name.
struct Service {
    index: usize,
    slug: &'static str,
    body: &'static str,
    dataset: &'static str,
}

impl Service {
    fn answer(&self, request: &Request) -> Reply {
        match request {
            Request::ItemByIndex(i) if *i == self.index => Reply::Item(ItemReply::from_body(self.body).unwrap()),
            Request::ItemByName(n) if n.as_str() == self.slug => Reply::Item(ItemReply::from_body(self.body).unwrap()),
            Request::ItemByIndex(_) | Request::ItemByName(_) => Reply::Item(ItemReply::from_body("Not Found").unwrap()),
            Request::Dataset => Reply::Dataset(self.dataset.to_string()),
        }
    }

    fn names(&self, index: usize, overrides: &OverrideTable) -> Result<NameRecord, CardError> {
        let index = Index::try_new(index).unwrap();
        let (mut state, mut request) = NameLookup::start(&index);
        loop {
            let reply = self.answer(&request);
            match state.step(reply, overrides) {
                Step::Continue(next, r) => {
                    state = next;
                    request = r;
                }
                Step::Finished(result) => return result,
            }
        }
    }

    fn id(&self, name: &str) -> Result<usize, CardError> {
        let (mut state, mut request) = IdLookup::start(name);
        loop {
            let reply = self.answer(&request);
            match state.step(reply) {
                Step::Continue(next, r) => {
                    state = next;
                    request = r;
                }
                Step::Finished(result) => return result,
            }
        }
    }
}

fn bulbasaur() -> Service {
    Service {
        index: 1,
        slug: "bulbasaur",
        body: r#"{"id": 1, "species": {"name": "Bulbasaur"}}"#,
        dataset: DATASET,
    }
}

#[test]
fn names_resolve_english_and_lowercased_german() {
    let names = bulbasaur().names(1, &OverrideTable::new()).unwrap();
    assert_eq!(names.english, "bulbasaur");
    assert_eq!(names.german, "bisasam");
}

#[test]
fn names_round_trip_to_the_same_index() {
    let service = bulbasaur();
    let names = service.names(1, &OverrideTable::new()).unwrap();
    assert_eq!(service.id(&names.english).unwrap(), 1);
}

#[test]
fn unknown_index_is_a_remote_lookup_error() {
    let err = bulbasaur().names(2, &OverrideTable::new()).unwrap_err();
    assert_eq!(err, CardError::RemoteLookup);
}

#[test]
fn override_name_is_used_when_the_service_name_is_not_in_the_dataset() {
    let service = Service {
        index: 122,
        slug: "mr-mime",
        body: r#"{"id": 122, "species": {"name": "mr-mime"}}"#,
        dataset: DATASET,
    };
    assert_eq!(service.names(122, &OverrideTable::new()).unwrap_err(), CardError::NameReconciliation);
    let overrides = OverrideTable::from_json(r#"{"_comment": "dataset names", "122": "mr. mime"}"#);
    let names = service.names(122, &overrides).unwrap();
    assert_eq!(names.english, "mr-mime");
    assert_eq!(names.german, "pantimos");
}

#[test]
fn unmatched_name_and_override_fail_with_reconciliation_error() {
    let service = Service {
        index: 122,
        slug: "mr-mime",
        body: r#"{"id": 122, "species": {"name": "mr-mime"}}"#,
        dataset: DATASET,
    };
    let overrides = OverrideTable::from_json(r#"{"122": "mister mime"}"#);
    assert_eq!(service.names(122, &overrides).unwrap_err(), CardError::NameReconciliation);
}

#[test]
fn missing_german_row_is_a_localization_error() {
    let service = Service {
        index: 25,
        slug: "pikachu",
        body: r#"{"id": 25, "species": {"name": "pikachu"}}"#,
        dataset: DATASET,
    };
    assert_eq!(service.names(25, &OverrideTable::new()).unwrap_err(), CardError::LocalizationMissing);
}

#[test]
fn german_name_resolves_to_index_through_the_dataset() {
    let service = bulbasaur();
    assert_eq!(service.id("Bisasam").unwrap(), 1);
}

#[test]
fn name_with_spaces_is_asked_with_hyphens() {
    let service = Service {
        index: 122,
        slug: "mr.-mime",
        body: r#"{"id": 122, "species": {"name": "mr-mime"}}"#,
        dataset: DATASET,
    };
    assert_eq!(service.id("Pantimos").unwrap(), 122);
    assert_eq!(service.id("mr. mime").unwrap(), 122);
}

#[test]
fn unknown_name_fails_with_reconciliation_error() {
    assert_eq!(bulbasaur().id("charizard").unwrap_err(), CardError::NameReconciliation);
}

#[test]
fn item_reply_not_found_in_any_case() {
    assert!(matches!(ItemReply::from_body("Not Found"), Ok(ItemReply::NotFound)));
    assert!(matches!(ItemReply::from_body("NOT FOUND"), Ok(ItemReply::NotFound)));
}

#[test]
fn item_reply_reads_id_and_lowercased_name() {
    match ItemReply::from_body(r#"{"id": 29, "species": {"name": "Nidoran-F"}}"#) {
        Ok(ItemReply::Found(rec)) => {
            assert_eq!(rec.id, 29);
            assert_eq!(rec.name, "nidoran-f");
        }
        other => panic!("unexpected reply {:?}", other),
    }
}

#[test]
fn item_reply_that_is_no_json_is_malformed() {
    assert_eq!(ItemReply::from_body("<html>").unwrap_err(), CardError::MalformedResponse);
    assert_eq!(ItemReply::from_body(r#"{"species": {"name": "x"}}"#).unwrap_err(), CardError::MalformedResponse);
}

#[test]
fn reply_of_the_wrong_kind_repeats_the_request() {
    let index = Index::try_new(7).unwrap();
    let (state, _) = NameLookup::start(&index);
    match state.step(Reply::Dataset(String::new()), &OverrideTable::new()) {
        Step::Continue(_, Request::ItemByIndex(i)) => assert_eq!(i, 7),
        other => panic!("unexpected step {:?}", other),
    }
}

#[test]
fn override_table_skips_comments_and_bad_members() {
    let table = OverrideTable::from_json(r#"{"_note": "x", "29": "nidoran♀", "abc": "y", "5": 7}"#);
    assert_eq!(table.lookup(29), Some("nidoran♀".to_string()));
    assert_eq!(table.lookup(5), None);
    assert_eq!(table.lookup(0), None);
}

#[test]
fn override_table_from_text_that_is_no_object_is_empty() {
    let table = OverrideTable::from_json("[1, 2]");
    assert_eq!(table.lookup(1), None);
    let table = OverrideTable::from_json("not json");
    assert_eq!(table.lookup(1), None);
}

#[test]
fn override_key_zero_is_not_an_index() {
    let table = OverrideTable::from_json(r#"{"0": "missingno", "+7": "seven", "8": "eight"}"#);
    assert_eq!(table.lookup(0), None);
    assert_eq!(table.lookup(7), Some("seven".to_string()));
    assert_eq!(table.lookup(8), Some("eight".to_string()));
}

#[test]
fn item_reply_with_missing_species_name_reads_null() {
    match ItemReply::from_body(r#"{"id": 3}"#) {
        Ok(ItemReply::Found(rec)) => {
            assert_eq!(rec.id, 3);
            assert_eq!(rec.name, "null");
        }
        other => panic!("unexpected reply {:?}", other),
    }
}

#[test]
fn german_name_with_a_space_is_searched_as_given() {
    let service = Service {
        index: 122,
        slug: "mr.-mime",
        body: r#"{"id": 122, "species": {"name": "mr-mime"}}"#,
        dataset: "pokemon_species_id,local_language_id,name,genus\n122,9,mr. mime,Barrier Pokémon\n122,6,Pan Timos,Barriere-Pokémon\n7,9,squirtle,Tiny Turtle Pokémon\n7,6,Pan-Timos,Test",
    };
    assert_eq!(service.id("pan timos").unwrap(), 122);
}

#[test]
fn hyphenated_form_of_an_unknown_name_is_not_searched() {
    let service = Service {
        index: 7,
        slug: "squirtle",
        body: r#"{"id": 7, "species": {"name": "squirtle"}}"#,
        dataset: "pokemon_species_id,local_language_id,name,genus\n7,9,squirtle,Tiny Turtle Pokémon\n7,6,Schiggy-Test,Test",
    };
    assert_eq!(service.id("Schiggy Test").unwrap_err(), CardError::NameReconciliation);
}
