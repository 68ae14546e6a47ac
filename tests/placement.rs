use card_binder::{Book, Entry, Index, Name, Page, Side};

// ==================== Index Tests ====================

#[test]
fn test_index_valid_creation() {
    let index = Index::try_new(1);
    assert!(index.is_ok());
    assert_eq!(index.unwrap().0, 1);
}

#[test]
fn test_index_zero_rejected() {
    let index = Index::try_new(0);
    assert!(index.is_err());
    assert!(index
        .unwrap_err()
        .to_string()
        .contains("can't be lower than 1"));
}

#[test]
fn test_index_large_values() {
    let index = Index::try_new(10000);
    assert!(index.is_ok());
    assert_eq!(index.unwrap().0, 10000);
}

#[test]
fn test_index_max_pokemon() {
    let index = Index::try_new(1025);
    assert!(index.is_ok());
    assert_eq!(index.unwrap().0, 1025);
}

// ==================== Book Tests ====================

#[test]
fn test_book_calculation_first_card() {
    let index = Index::try_new(1).unwrap();
    let book = Book::from(&index);
    assert_eq!(book.0, 1, "First card should be in book 1");
}

#[test]
fn test_book_calculation_boundary() {
    let index = Index::try_new(576).unwrap();
    let book = Book::from(&index);
    assert_eq!(book.0, 1, "Card 576 should be in book 1");

    let index = Index::try_new(577).unwrap();
    let book = Book::from(&index);
    assert_eq!(book.0, 2, "Card 577 should be in book 2");
}

#[test]
fn test_book_calculation_second_book() {
    let index = Index::try_new(600).unwrap();
    let book = Book::from(&index);
    assert_eq!(book.0, 2, "Card 600 should be in book 2");
}

#[test]
fn test_book_calculation_large_index() {
    let index = Index::try_new(1025).unwrap();
    let book = Book::from(&index);
    assert_eq!(book.0, 2, "Card 1025 should be in book 2");
}

// ==================== Page Tests ====================

#[test]
fn test_page_absolute_first_card() {
    let index = Index::try_new(1).unwrap();
    let page = Page::absolut(&index);
    assert_eq!(page.0, 1, "First card should be on absolute page 1");
}

#[test]
fn test_page_absolute_boundary() {
    let index = Index::try_new(24).unwrap();
    let page = Page::absolut(&index);
    assert_eq!(page.0, 1, "Card 24 should be on absolute page 1");

    let index = Index::try_new(25).unwrap();
    let page = Page::absolut(&index);
    assert_eq!(page.0, 2, "Card 25 should be on absolute page 2");
}

#[test]
fn test_page_relative_first_page() {
    let index = Index::try_new(1).unwrap();
    let page = Page::relative(&index);
    assert_eq!(page.0, 1, "First card should be on relative page 1");
}

#[test]
fn test_page_relative_wrapping() {
    let index = Index::try_new(576).unwrap();
    let page = Page::relative(&index);
    assert_eq!(page.0, 24, "Card 576 should be on page 24");

    let index = Index::try_new(577).unwrap();
    let page = Page::relative(&index);
    assert_eq!(page.0, 1, "Card 577 should be on page 1 of book 2");
}

// ==================== Side Tests ====================

#[test]
fn test_side_first_half_of_page() {
    let index = Index::try_new(1).unwrap();
    let side = Side::from(&index);
    assert_eq!(side, Side::A, "Card 1 should be on side A");

    let index = Index::try_new(12).unwrap();
    let side = Side::from(&index);
    assert_eq!(side, Side::A, "Card 12 should be on side A");
}

#[test]
fn test_side_second_half_of_page() {
    let index = Index::try_new(13).unwrap();
    let side = Side::from(&index);
    assert_eq!(side, Side::B, "Card 13 should be on side B");

    let index = Index::try_new(24).unwrap();
    let side = Side::from(&index);
    assert_eq!(side, Side::B, "Card 24 should be on side B");
}

#[test]
fn test_side_boundary_cases() {
    let index = Index::try_new(25).unwrap();
    let side = Side::from(&index);
    assert_eq!(side, Side::A, "Card 25 should be on side A");

    let index = Index::try_new(36).unwrap();
    let side = Side::from(&index);
    assert_eq!(side, Side::A, "Card 36 should be on side A");

    let index = Index::try_new(37).unwrap();
    let side = Side::from(&index);
    assert_eq!(side, Side::B, "Card 37 should be on side B");
}

// ==================== Entry Tests ====================

#[test]
fn test_entry_first_page_side_a() {
    let index = Index::try_new(1).unwrap();
    let page_abs = Page::absolut(&index);
    let side = Side::from(&index);
    let entry = Entry::new(&index, &page_abs, &side);
    assert_eq!(entry.0, 1, "First card should be entry 1");
}

#[test]
fn test_entry_first_page_all_cards() {
    for i in 1..=12 {
        let index = Index::try_new(i).unwrap();
        let page_abs = Page::absolut(&index);
        let side = Side::from(&index);
        let entry = Entry::new(&index, &page_abs, &side);
        assert_eq!(entry.0, i, "Card {} should have entry {}", i, i);
    }
}

#[test]
fn test_entry_side_b_calculation() {
    let index = Index::try_new(13).unwrap();
    let page_abs = Page::absolut(&index);
    let side = Side::from(&index);
    let entry = Entry::new(&index, &page_abs, &side);
    assert_eq!(entry.0, 1, "Card 13 should be entry 1 on side B");
}

// ==================== Name Tests ====================

#[test]
fn test_name_creation() {
    let name = Name::new("pikachu");
    assert_eq!(name.0, "pikachu");
}

#[test]
fn test_name_with_spaces() {
    let name = Name::new("mr mime");
    assert_eq!(name.0, "mr mime");
}

#[test]
fn test_name_empty_string() {
    let name = Name::new("");
    assert_eq!(name.0, "");
}

#[test]
fn test_name_unicode() {
    let name = Name::new("FlabÃ©bÃ©");
    assert_eq!(name.0, "FlabÃ©bÃ©");
}

#[test]
fn test_name_special_characters() {
    let name = Name::new("Nidoranâ™€");
    assert_eq!(name.0, "Nidoranâ™€");
}

// ==================== Display Tests ====================

#[test]
fn test_index_display() {
    let index = Index::try_new(123).unwrap();
    assert_eq!(index.to_string(), "123");
}

#[test]
fn test_name_display() {
    let name = Name::new("charizard");
    assert_eq!(name.to_string(), "charizard");
}

#[test]
fn test_book_display() {
    let index = Index::try_new(1).unwrap();
    let book = Book::from(&index);
    assert_eq!(book.to_string(), "1");
}

#[test]
fn test_side_display() {
    assert_eq!(Side::A.to_string(), "A");
    assert_eq!(Side::B.to_string(), "B");
}

// ==================== Edge Cases ====================

#[test]
fn test_very_large_index() {
    let index = Index::try_new(usize::MAX);
    assert!(index.is_ok());
}

#[test]
fn test_card_calculations_consistency() {
    for id in [1, 24, 25, 576, 577, 1000, 1025].iter() {
        let index = Index::try_new(*id).unwrap();
        let book = Book::from(&index);
        let page_rel = Page::relative(&index);
        let page_abs = Page::absolut(&index);
        let side = Side::from(&index);
        let entry = Entry::new(&index, &page_abs, &side);

        assert!(book.0 > 0, "Book must be > 0 for card {}", id);

        assert!(page_rel.0 > 0, "Page must be > 0 for card {}", id);
        assert!(page_abs.0 > 0, "Absolute page must be > 0 for card {}", id);

        assert!(
            entry.0 >= 1 && entry.0 <= 12,
            "Entry must be 1-12 for card {}, got {}",
            id,
            entry.0
        );
    }
}
