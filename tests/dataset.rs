use card_binder::PokeApi;

#[test]
fn test_find_species_id_by_name_found() {
    let csv_data = "pokemon_species_id,local_language_id,name,genus\n1,9,bulbasaur,Seed Pokémon\n1,6,bisasam,Samen-Pokémon\n25,9,pikachu,Mouse Pokémon";

    let result = PokeApi::find_species_id_by_name(csv_data, "pikachu");
    assert!(result.is_ok());
    assert_eq!(result.unwrap(), Some(25));
}

#[test]
fn test_find_species_id_by_name_case_insensitive() {
    let csv_data = "pokemon_species_id,local_language_id,name,genus\n25,9,pikachu,Mouse Pokémon";

    let result = PokeApi::find_species_id_by_name(csv_data, "PIKACHU");
    assert!(result.is_ok());
    assert_eq!(result.unwrap(), Some(25));

    let result = PokeApi::find_species_id_by_name(csv_data, "PiKaChU");
    assert!(result.is_ok());
    assert_eq!(result.unwrap(), Some(25));
}

#[test]
fn test_find_species_id_by_name_not_found() {
    let csv_data = "pokemon_species_id,local_language_id,name,genus\n1,9,bulbasaur,Seed Pokémon\n25,9,pikachu,Mouse Pokémon";

    let result = PokeApi::find_species_id_by_name(csv_data, "charizard");
    assert!(result.is_ok());
    assert_eq!(result.unwrap(), None);
}

#[test]
fn test_find_species_id_by_name_empty_csv() {
    let csv_data = "pokemon_species_id,local_language_id,name,genus\n";

    let result = PokeApi::find_species_id_by_name(csv_data, "pikachu");
    assert!(result.is_ok());
    assert_eq!(result.unwrap(), None);
}

#[test]
fn test_find_species_id_by_name_german() {
    let csv_data = "pokemon_species_id,local_language_id,name,genus\n1,9,bulbasaur,Seed Pokémon\n1,6,bisasam,Samen-Pokémon";

    let result = PokeApi::find_species_id_by_name(csv_data, "bisasam");
    assert!(result.is_ok());
    assert_eq!(result.unwrap(), Some(1));
}

#[test]
fn test_find_name_by_species_id_english() {
    let csv_data = "pokemon_species_id,local_language_id,name,genus\n1,9,bulbasaur,Seed Pokémon\n1,6,bisasam,Samen-Pokémon\n25,9,pikachu,Mouse Pokémon";

    let result = PokeApi::find_name_by_species_id(csv_data, 1, PokeApi::ENGLISH_LANG_ID);
    assert!(result.is_ok());
    assert_eq!(result.unwrap(), Some("bulbasaur".to_string()));
}

#[test]
fn test_find_name_by_species_id_german() {
    let csv_data = "pokemon_species_id,local_language_id,name,genus\n1,9,bulbasaur,Seed Pokémon\n1,6,bisasam,Samen-Pokémon\n25,9,pikachu,Mouse Pokémon";

    let result = PokeApi::find_name_by_species_id(csv_data, 1, PokeApi::GERMAN_LANG_ID);
    assert!(result.is_ok());
    assert_eq!(result.unwrap(), Some("bisasam".to_string()));
}

#[test]
fn test_find_name_by_species_id_not_found() {
    let csv_data = "pokemon_species_id,local_language_id,name,genus\n1,9,bulbasaur,Seed Pokémon\n1,6,bisasam,Samen-Pokémon";

    let result = PokeApi::find_name_by_species_id(csv_data, 999, PokeApi::ENGLISH_LANG_ID);
    assert!(result.is_ok());
    assert_eq!(result.unwrap(), None);
}

#[test]
fn test_find_name_by_species_id_wrong_language() {
    let csv_data = "pokemon_species_id,local_language_id,name,genus\n1,9,bulbasaur,Seed Pokémon\n1,6,bisasam,Samen-Pokémon";

    // Species 1 exists but not with language ID 5 (French)
    let result = PokeApi::find_name_by_species_id(csv_data, 1, 5);
    assert!(result.is_ok());
    assert_eq!(result.unwrap(), None);
}

#[test]
fn test_find_name_by_species_id_empty_csv() {
    let csv_data = "pokemon_species_id,local_language_id,name,genus\n";

    let result = PokeApi::find_name_by_species_id(csv_data, 1, PokeApi::ENGLISH_LANG_ID);
    assert!(result.is_ok());
    assert_eq!(result.unwrap(), None);
}

#[test]
fn test_find_species_id_with_special_characters() {
    let csv_data = "pokemon_species_id,local_language_id,name,genus\n29,9,nidoran♀,Poison Pin Pokémon\n669,9,flabébé,Single Bloom Pokémon";

    let result = PokeApi::find_species_id_by_name(csv_data, "nidoran♀");
    assert!(result.is_ok());
    assert_eq!(result.unwrap(), Some(29));

    let result = PokeApi::find_species_id_by_name(csv_data, "flabébé");
    assert!(result.is_ok());
    assert_eq!(result.unwrap(), Some(669));
}

#[test]
fn test_find_species_id_with_hyphen() {
    let csv_data = "pokemon_species_id,local_language_id,name,genus\n122,9,mr-mime,Barrier Pokémon\n439,9,mime-jr,Mime Pokémon";

    let result = PokeApi::find_species_id_by_name(csv_data, "mr-mime");
    assert!(result.is_ok());
    assert_eq!(result.unwrap(), Some(122));

    let result = PokeApi::find_species_id_by_name(csv_data, "mime-jr");
    assert!(result.is_ok());
    assert_eq!(result.unwrap(), Some(439));
}

#[test]
fn test_malformed_csv_error_handling() {
    // CSV with missing columns
    let csv_data = "pokemon_species_id,local_language_id\n1,9\n";

    let result = PokeApi::find_species_id_by_name(csv_data, "bulbasaur");
    assert!(result.is_err());
}

#[test]
fn test_multiple_same_species_different_languages() {
    let csv_data = "pokemon_species_id,local_language_id,name,genus\n1,1,フシギダネ,たねポケモン\n1,5,bulbizarre,Pokémon Graine\n1,6,bisasam,Samen-Pokémon\n1,9,bulbasaur,Seed Pokémon";

    let result = PokeApi::find_species_id_by_name(csv_data, "bulbasaur");
    assert!(result.is_ok());
    assert_eq!(result.unwrap(), Some(1));

    let result = PokeApi::find_species_id_by_name(csv_data, "bisasam");
    assert!(result.is_ok());
    assert_eq!(result.unwrap(), Some(1));

    let result = PokeApi::find_name_by_species_id(csv_data, 1, 5); // French
    assert!(result.is_ok());
    assert_eq!(result.unwrap(), Some("bulbizarre".to_string()));
}

#[test]
fn test_language_constants() {
    assert_eq!(PokeApi::GERMAN_LANG_ID, 6);
    assert_eq!(PokeApi::ENGLISH_LANG_ID, 9);
}

#[test]
fn test_empty_name_search() {
    let csv_data = "pokemon_species_id,local_language_id,name,genus\n1,9,bulbasaur,Seed Pokémon";

    let result = PokeApi::find_species_id_by_name(csv_data, "");
    assert!(result.is_ok());
    assert_eq!(result.unwrap(), None);
}

#[test]
fn test_whitespace_in_names() {
    let csv_data = "pokemon_species_id,local_language_id,name,genus\n122,9,mr mime,Barrier Pokémon";

    let result = PokeApi::find_species_id_by_name(csv_data, "mr mime");
    assert!(result.is_ok());
    assert_eq!(result.unwrap(), Some(122));
}

#[test]
fn test_csv_with_quotes() {
    let csv_data = r#"pokemon_species_id,local_language_id,name,genus
1,9,"bulbasaur","Seed Pokémon"
25,9,"pikachu","Mouse Pokémon""#;

    let result = PokeApi::find_species_id_by_name(csv_data, "bulbasaur");
    assert!(result.is_ok());
    assert_eq!(result.unwrap(), Some(1));
}

// ==================== Further dataset cases ====================

#[test]
fn dataset_hex_species_id_is_read() {
    let csv_data = "pokemon_species_id,local_language_id,name,genus\n0x19,9,pikachu,Mouse Pokémon";
    assert_eq!(PokeApi::find_species_id_by_name(csv_data, "pikachu").unwrap(), Some(25));
}

#[test]
fn dataset_columns_found_by_header_name() {
    let csv_data = "name,genus,local_language_id,pokemon_species_id\npikachu,Mouse Pokémon,9,25";
    assert_eq!(PokeApi::find_species_id_by_name(csv_data, "Pikachu").unwrap(), Some(25));
}

#[test]
fn dataset_bad_row_before_match_fails() {
    let csv_data = "pokemon_species_id,local_language_id,name,genus\nabc,9,bulbasaur,Seed Pokémon\n25,9,pikachu,Mouse Pokémon";
    assert!(PokeApi::find_species_id_by_name(csv_data, "pikachu").is_err());
}

#[test]
fn dataset_bad_row_after_match_is_not_read() {
    let csv_data = "pokemon_species_id,local_language_id,name,genus\n25,9,pikachu,Mouse Pokémon\nabc,9,bulbasaur,Seed Pokémon";
    assert_eq!(PokeApi::find_species_id_by_name(csv_data, "pikachu").unwrap(), Some(25));
}

#[test]
fn dataset_row_of_wrong_length_fails() {
    let csv_data = "pokemon_species_id,local_language_id,name,genus\n25,9,pikachu";
    assert!(PokeApi::find_species_id_by_name(csv_data, "pikachu").is_err());
}

#[test]
fn dataset_language_id_above_u8_fails() {
    let csv_data = "pokemon_species_id,local_language_id,name,genus\n25,300,pikachu,Mouse Pokémon";
    assert!(PokeApi::find_name_by_species_id(csv_data, 25, 9).is_err());
}

#[test]
fn dataset_repeated_column_name_fails() {
    let csv_data = "pokemon_species_id,local_language_id,name,name,genus\n25,9,pikachu,pika,Mouse Pokémon";
    assert!(PokeApi::find_species_id_by_name(csv_data, "pikachu").is_err());
}
