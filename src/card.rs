//! A collectible card: its index, its two names and its place in the binder.
use vstd::prelude::*;
use vstd::std_specs::convert::FromSpecImpl;

use crate::placement::{
    book_of, entry_of, page_abs_of, page_rel_of, side_of, slot_of, Book, Entry, Index, Page, Side,
};
use crate::pokeapi::NameRecord;
use crate::text::{chars_of, decimal_of, decimal_string};
use crate::SPRITE_URL;

verus! {

/// Whether the texts `a` and `b` hold the same characters.
pub fn text_eq(a: &str, b: &str) -> (r: bool)
    ensures
        r == (a@ == b@),
{
    let x = chars_of(a);
    let y = chars_of(b);
    if x.len() != y.len() {
        return false;
    }
    let mut i: usize = 0;
    while i < x.len()
        invariant
            x@ == a@,
            y@ == b@,
            x@.len() == y@.len(),
            i <= x@.len(),
            forall|k: int| 0 <= k < i ==> x@[k] == y@[k],
        decreases x@.len() - i,
    {
        if x[i] != y[i] {
            return false;
        }
        i = i + 1;
    }
    assert(x@ =~= y@);
    true
}

/// A card name.
#[derive(Debug, Clone, PartialEq, Eq)]
pub struct Name(pub String);

impl Name {
    /// The name holding the given text.
    pub fn new(name: &str) -> (r: Name)
        ensures
            r.0@ == name@,
    {
        Name(name.to_owned())
    }

    /// The name's text.
    pub fn to_string(&self) -> (r: String)
        ensures
            r@ == self.0@,
    {
        self.0.clone()
    }
}

/// Whether a card is owned.
#[derive(Debug, Clone, Copy, PartialEq, Eq, Structural)]
pub struct Bool(pub bool);

impl Bool {
    /// `"Yes"` or `"No"`.
    pub fn to_string(&self) -> (r: String)
        ensures
            self.0 ==> r@ == "Yes"@,
            !self.0 ==> r@ == "No"@,
    {
        if self.0 {
            String::from_str("Yes")
        } else {
            String::from_str("No")
        }
    }
}

/// The rarity of a printed card, from least to most rare.
#[derive(Debug, Clone, Copy, PartialEq, Eq, Structural, PartialOrd, Ord)]
pub enum Rarity {
    Common,
    Uncommon,
    Rare,
    HoloRare,
    ReverseHoloRare,
    DoubleRare,
    UltraRare,
    SecretRare,
    Promo,
}

/// The label under which a rarity is shown and stored.
pub open spec fn rarity_label(r: Rarity) -> Seq<char> {
    match r {
        Rarity::Common => "Common ●"@,
        Rarity::Uncommon => "Uncommon ♦"@,
        Rarity::Rare => "Rare ★"@,
        Rarity::HoloRare => "Holo Rare ★H"@,
        Rarity::ReverseHoloRare => "Reverse Holo Rare ★H"@,
        Rarity::DoubleRare => "Double Rare ★★"@,
        Rarity::UltraRare => "Ultra Rare"@,
        Rarity::SecretRare => "Secret Rare"@,
        Rarity::Promo => "Promo"@,
    }
}

/// The rarity a stored label stands for; an unknown label is `Common`.
pub open spec fn rarity_of_label(s: Seq<char>) -> Rarity {
    if s == "Common ●"@ {
        Rarity::Common
    } else if s == "Uncommon ♦"@ {
        Rarity::Uncommon
    } else if s == "Rare ★"@ {
        Rarity::Rare
    } else if s == "Holo Rare ★H"@ {
        Rarity::HoloRare
    } else if s == "Reverse Holo Rare ★H"@ {
        Rarity::ReverseHoloRare
    } else if s == "Double Rare ★★"@ {
        Rarity::DoubleRare
    } else if s == "Ultra Rare"@ {
        Rarity::UltraRare
    } else if s == "Secret Rare"@ {
        Rarity::SecretRare
    } else if s == "Promo"@ {
        Rarity::Promo
    } else {
        Rarity::Common
    }
}

impl Default for Rarity {
    fn default() -> (r: Rarity)
        ensures
            r == Rarity::Common,
    {
        Rarity::Common
    }
}

impl Rarity {
    /// The label under which the rarity is shown and stored.
    pub fn to_string(&self) -> (r: String)
        ensures
            r@ == rarity_label(*self),
    {
        match self {
            Rarity::Common => String::from_str("Common ●"),
            Rarity::Uncommon => String::from_str("Uncommon ♦"),
            Rarity::Rare => String::from_str("Rare ★"),
            Rarity::HoloRare => String::from_str("Holo Rare ★H"),
            Rarity::ReverseHoloRare => String::from_str("Reverse Holo Rare ★H"),
            Rarity::DoubleRare => String::from_str("Double Rare ★★"),
            Rarity::UltraRare => String::from_str("Ultra Rare"),
            Rarity::SecretRare => String::from_str("Secret Rare"),
            Rarity::Promo => String::from_str("Promo"),
        }
    }
}

impl<'a> From<&'a str> for Rarity {
    /// The rarity a stored label stands for; an unknown label is `Common`.
    fn from(value: &'a str) -> (r: Rarity)
        ensures
            r == rarity_of_label(value@),
    {
        if text_eq(value, "Common ●") {
            Rarity::Common
        } else if text_eq(value, "Uncommon ♦") {
            Rarity::Uncommon
        } else if text_eq(value, "Rare ★") {
            Rarity::Rare
        } else if text_eq(value, "Holo Rare ★H") {
            Rarity::HoloRare
        } else if text_eq(value, "Reverse Holo Rare ★H") {
            Rarity::ReverseHoloRare
        } else if text_eq(value, "Double Rare ★★") {
            Rarity::DoubleRare
        } else if text_eq(value, "Ultra Rare") {
            Rarity::UltraRare
        } else if text_eq(value, "Secret Rare") {
            Rarity::SecretRare
        } else if text_eq(value, "Promo") {
            Rarity::Promo
        } else {
            Rarity::Common
        }
    }
}

impl<'a> FromSpecImpl<&'a str> for Rarity {
    open spec fn obeys_from_spec() -> bool {
        true
    }

    open spec fn from_spec(v: &'a str) -> Rarity {
        rarity_of_label(v@)
    }
}

/// The address of the sprite of the card with index `i`.
pub open spec fn img_url_of(i: nat) -> Seq<char> {
    SPRITE_URL@ + decimal_of(i) + ".png"@
}

/// A card with its names and its place in the binder.
#[derive(Debug, Clone, PartialEq, Eq)]
pub struct Card {
    pub index: Index,
    pub name_en: Name,
    pub name_de: Name,
    pub book: Book,
    pub page: Page,
    pub side: Side,
    pub entry: Entry,
    pub img_url: String,
    pub owned: Bool,
}

/// The address of the sprite of the card with index `index`.
pub fn img_url(index: usize) -> (r: String)
    ensures
        r@ == img_url_of(index as nat),
{
    let mut url = String::from_str(SPRITE_URL);
    let digits = decimal_string(index);
    url.append(digits.as_str());
    url.append(".png");
    url
}

impl Card {
    /// A sample card: index 1 with placeholder names, at book 1, page 1, side
    /// A, entry 1, not owned.
    pub fn new_debug() -> (r: Card)
        ensures
            r.index == Index(1),
            r.name_en.0@ == "some name"@,
            r.name_de.0@ == "ein Name"@,
            r.book == Book(1),
            r.page == Page(1),
            r.side == Side::A,
            r.entry == Entry(1),
            r.img_url@ == img_url_of(1),
            r.owned == Bool(false),
    {
        Card {
            index: Index(1),
            name_en: Name::new("some name"),
            name_de: Name::new("ein Name"),
            book: Book(1),
            page: Page(1),
            side: Side::A,
            entry: Entry(1),
            img_url: img_url(1),
            owned: Bool(false),
        }
    }

    /// The card with a valid index and its resolved names: its book, its page
    /// within the book, its side and its entry are computed from the index; it
    /// is not owned.
    pub fn assemble(index: Index, names: NameRecord) -> (r: Card)
        requires
            index.0 >= 1,
        ensures
            r.index == index,
            r.name_en.0@ == names.english@,
            r.name_de.0@ == names.german@,
            r.book.0 == book_of(index.0 as int),
            r.page.0 == page_rel_of(index.0 as int),
            r.side == side_of(index.0 as int),
            r.entry.0 == entry_of(index.0 as int),
            r.entry.0 == slot_of(index.0 as int),
            r.img_url@ == img_url_of(index.0 as nat),
            r.owned == Bool(false),
    {
        proof {
            crate::placement::lemma_entry_is_slot(index.0 as int);
        }
        let book = Book::from(&index);
        let page = Page::relative(&index);
        let side = Side::from(&index);
        let page_abs = Page::absolut(&index);
        let entry = Entry::new(&index, &page_abs, &side);
        let img_url = img_url(index.0);
        Card {
            index,
            name_en: Name(names.english),
            name_de: Name(names.german),
            book,
            page,
            side,
            entry,
            img_url,
            owned: Bool(false),
        }
    }
}

} // verus!
