//! Where a card sits in the binder: book, page, side and entry, all computed
//! from the card's catalog index with integer arithmetic.
use vstd::arithmetic::div_mod::{lemma_mod_add_multiples_vanish, lemma_small_mod};
use vstd::prelude::*;
use vstd::std_specs::convert::FromSpecImpl;

use crate::error::CardError;
use crate::text::decimal_string;
use crate::{CARDS_PER_BOOK, CARDS_PER_DOUBLE_PAGE, PAGES_PER_BOOK};

verus! {

/// `ceil(n / d)` for `n >= 0` and `d > 0`.
pub open spec fn ceil_div(n: int, d: int) -> int {
    (n + d - 1) / d
}

/// The book that holds the card with index `i`.
pub open spec fn book_of(i: int) -> int {
    ceil_div(i, CARDS_PER_BOOK as int)
}

/// The page, counted over the whole catalog, that holds the card with index `i`.
pub open spec fn page_abs_of(i: int) -> int {
    ceil_div(i, CARDS_PER_DOUBLE_PAGE as int)
}

/// The page within its book of the absolute page `p`; a remainder of zero is
/// the book's last page.
pub open spec fn page_rel_of_abs(p: int) -> int {
    if p % (PAGES_PER_BOOK as int) == 0 {
        PAGES_PER_BOOK as int
    } else {
        p % (PAGES_PER_BOOK as int)
    }
}

/// The page within its book that holds the card with index `i`.
pub open spec fn page_rel_of(i: int) -> int {
    page_rel_of_abs(page_abs_of(i))
}

/// The side of the card with index `i`: with `r` the remainder of `i` by the
/// cards on a page, side B when `r / 24` is above one half or exactly zero,
/// side A otherwise.
pub open spec fn side_of(i: int) -> Side {
    let r = i % (CARDS_PER_DOUBLE_PAGE as int);
    if r == 0 || 2 * r > CARDS_PER_DOUBLE_PAGE as int {
        Side::B
    } else {
        Side::A
    }
}

/// Middle of the absolute page `p`: the index of the last card of its side A.
pub open spec fn midpoint_of(p: int) -> int {
    (CARDS_PER_DOUBLE_PAGE as int) * p - (CARDS_PER_DOUBLE_PAGE as int) / 2
}

/// The entry of a card on its page side, as the binder layout defines it from
/// the index, the absolute page and the side.
pub open spec fn entry_formula(i: int, p: int, side: Side) -> int {
    let half = (CARDS_PER_DOUBLE_PAGE as int) / 2;
    match side {
        Side::A => if p == 1 {
            i
        } else {
            half - midpoint_of(p) % i
        },
        Side::B => i - midpoint_of(p),
    }
}

/// The entry of the card with index `i`.
pub open spec fn entry_of(i: int) -> int {
    entry_formula(i, page_abs_of(i), side_of(i))
}

/// The entry of the card with index `i >= 1` as its position within its half
/// of the page: the cards of each side are numbered 1 to 12 in order.
pub open spec fn slot_of(i: int) -> int {
    (i - 1) % ((CARDS_PER_DOUBLE_PAGE as int) / 2) + 1
}

/// The side that the page number `p` stands for: even pages are side B.
pub open spec fn side_of_page(p: int) -> Side {
    if p % 2 == 0 {
        Side::B
    } else {
        Side::A
    }
}

/// The side that a stored side name stands for: `"A"` is side A, any other text side B.
pub open spec fn side_of_text(s: Seq<char>) -> Side {
    if s == "A"@ {
        Side::A
    } else {
        Side::B
    }
}

/// A catalog index; a valid one is at least 1.
#[derive(Debug, Clone, Copy, PartialEq, Eq, Structural)]
pub struct Index(pub usize);

/// A binder book, numbered from 1.
#[derive(Debug, Clone, Copy, PartialEq, Eq, Structural)]
pub struct Book(pub usize);

/// A binder page; absolute over the catalog, or relative to its book.
#[derive(Debug, Clone, Copy, PartialEq, Eq, Structural)]
pub struct Page(pub usize);

/// A side of a binder page: the first half of its cards is on A, the rest on B.
#[derive(Debug, Clone, Copy, PartialEq, Eq, Structural)]
pub enum Side {
    A,
    B,
}

/// A slot on one side of a page, numbered from 1.
#[derive(Debug, Clone, Copy, PartialEq, Eq, Structural)]
pub struct Entry(pub usize);

impl Index {
    /// Validates a raw catalog index: 0 is refused, every other value taken.
    pub fn try_new(index: usize) -> (r: Result<Index, CardError>)
        ensures
            index == 0 ==> r == Err::<Index, CardError>(CardError::InvalidIndex(index)),
            index != 0 ==> r == Ok::<Index, CardError>(Index(index)),
    {
        if index == 0 {
            Err(CardError::InvalidIndex(index))
        } else {
            Ok(Index(index))
        }
    }

    /// The index in decimal digits.
    pub fn to_string(&self) -> (r: String)
        ensures
            r@ == crate::text::decimal_of(self.0 as nat),
    {
        decimal_string(self.0)
    }
}

impl<'a> From<&'a Index> for Book {
    /// The book of the card: `ceil(index / CARDS_PER_BOOK)`.
    fn from(value: &'a Index) -> (r: Book)
        ensures
            r.0 == book_of(value.0 as int),
    {
        let q = value.0 / CARDS_PER_BOOK;
        if value.0 % CARDS_PER_BOOK == 0 {
            Book(q)
        } else {
            Book(q + 1)
        }
    }
}

impl<'a> FromSpecImpl<&'a Index> for Book {
    open spec fn obeys_from_spec() -> bool {
        true
    }

    open spec fn from_spec(v: &'a Index) -> Book {
        Book(book_of(v.0 as int) as usize)
    }
}

impl Book {
    /// The book number in decimal digits.
    pub fn to_string(&self) -> (r: String)
        ensures
            r@ == crate::text::decimal_of(self.0 as nat),
    {
        decimal_string(self.0)
    }
}

impl Page {
    /// The page within its book of an absolute page: the remainder by the pages
    /// of a book, with a remainder of 0 standing for the book's last page.
    pub fn relative_from_absolute(absolute: Page) -> (r: Page)
        ensures
            r.0 == page_rel_of_abs(absolute.0 as int),
    {
        let remainder = absolute.0 % PAGES_PER_BOOK;
        if remainder == 0 {
            Page(PAGES_PER_BOOK)
        } else {
            Page(remainder)
        }
    }

    /// The absolute page of the card, counted from 1 over the whole catalog:
    /// `ceil(index / CARDS_PER_DOUBLE_PAGE)`.
    pub fn absolut(index: &Index) -> (r: Page)
        ensures
            r.0 == page_abs_of(index.0 as int),
    {
        let q = index.0 / CARDS_PER_DOUBLE_PAGE;
        if index.0 % CARDS_PER_DOUBLE_PAGE == 0 {
            Page(q)
        } else {
            Page(q + 1)
        }
    }

    /// The page of the card within its book.
    pub fn relative(index: &Index) -> (r: Page)
        ensures
            r.0 == page_rel_of(index.0 as int),
    {
        Page::relative_from_absolute(Page::absolut(index))
    }

    /// The page number in decimal digits.
    pub fn to_string(&self) -> (r: String)
        ensures
            r@ == crate::text::decimal_of(self.0 as nat),
    {
        decimal_string(self.0)
    }
}

impl Side {
    /// The side a page number stands for: even pages are side B, odd ones side A.
    pub fn from_page(page: Page) -> (r: Side)
        ensures
            r == side_of_page(page.0 as int),
    {
        if page.0 % 2 == 0 {
            Side::B
        } else {
            Side::A
        }
    }

    /// The side's name, `"A"` or `"B"`.
    pub fn to_string(&self) -> (r: String)
        ensures
            *self == Side::A ==> r@ == "A"@,
            *self == Side::B ==> r@ == "B"@,
    {
        match self {
            Side::A => String::from_str("A"),
            Side::B => String::from_str("B"),
        }
    }
}

impl<'a> From<&'a str> for Side {
    /// The side parsed from its stored name: `"A"` is side A, anything else side B.
    fn from(value: &'a str) -> (r: Side)
        ensures
            r == side_of_text(value@),
    {
        proof {
            reveal_strlit("A");
        }
        if value.unicode_len() == 1 && value.get_char(0) == 'A' {
            assert(value@ =~= "A"@);
            Side::A
        } else {
            Side::B
        }
    }
}

impl<'a> FromSpecImpl<&'a str> for Side {
    open spec fn obeys_from_spec() -> bool {
        true
    }

    open spec fn from_spec(v: &'a str) -> Side {
        side_of_text(v@)
    }
}

impl<'a> From<&'a Index> for Side {
    /// The side of the card: with `r` the remainder of the index by the cards
    /// on a page, side B when `r` is 0 or lies in the page's second half.
    fn from(value: &'a Index) -> (r: Side)
        ensures
            r == side_of(value.0 as int),
    {
        let rest = value.0 % CARDS_PER_DOUBLE_PAGE;
        if rest == 0 || rest > CARDS_PER_DOUBLE_PAGE / 2 {
            Side::B
        } else {
            Side::A
        }
    }
}

impl<'a> FromSpecImpl<&'a Index> for Side {
    open spec fn obeys_from_spec() -> bool {
        true
    }

    open spec fn from_spec(v: &'a Index) -> Side {
        side_of(v.0 as int)
    }
}

impl Entry {
    /// The entry of the card on its page side, from its index and the absolute
    /// page and side that belong to it.
    pub fn new(index: &Index, page_absolut: &Page, side: &Side) -> (r: Entry)
        requires
            index.0 >= 1,
            page_absolut.0 == page_abs_of(index.0 as int),
            *side == side_of(index.0 as int),
        ensures
            r.0 == entry_formula(index.0 as int, page_absolut.0 as int, *side),
            r.0 == slot_of(index.0 as int),
    {
        proof {
            lemma_entry_is_slot(index.0 as int);
        }
        let half = CARDS_PER_DOUBLE_PAGE / 2;
        match side {
            Side::A => {
                if page_absolut.0 == 1 {
                    Entry(index.0)
                } else {
                    let block_start = CARDS_PER_DOUBLE_PAGE * (page_absolut.0 - 1);
                    Entry(index.0 - block_start)
                }
            },
            Side::B => {
                let block_start = CARDS_PER_DOUBLE_PAGE * (page_absolut.0 - 1);
                Entry(index.0 - block_start - half)
            },
        }
    }

    /// The entry number in decimal digits.
    pub fn to_string(&self) -> (r: String)
        ensures
            r@ == crate::text::decimal_of(self.0 as nat),
    {
        decimal_string(self.0)
    }
}

/// The entry formula of the binder layout gives, for every index, the card's
/// position within its half page.
#[verifier::spinoff_prover]
pub proof fn lemma_entry_is_slot(i: int)
    requires
        i >= 1,
    ensures
        entry_of(i) == slot_of(i),
        page_abs_of(i) == (i - 1) / 24 + 1,
        side_of(i) == Side::A <==> (i - 1) % 24 < 12,
{
    let q = i / 24;
    let r = i % 24;
    assert(i == 24 * q + r);
    let p = page_abs_of(i);
    if r == 0 {
        assert(p == q);
        assert(entry_of(i) == 12);
    } else if r <= 12 {
        assert(p == q + 1);
        if q >= 1 {
            let m = midpoint_of(p);
            assert(m == i + (12 - r));
            lemma_mod_add_multiples_vanish(12 - r, i);
            lemma_small_mod((12 - r) as nat, i as nat);
            assert(m % i == 12 - r);
        }
        assert(entry_of(i) == r);
    } else {
        assert(p == q + 1);
        assert(entry_of(i) == r - 12);
    }
}

/// For every valid index the book, both pages and the entry are in range:
/// the book and the absolute page are at least 1, the page within the book is
/// between 1 and the pages of a book, and the entry between 1 and 12.
pub proof fn lemma_placement_in_range(i: int)
    requires
        i >= 1,
    ensures
        book_of(i) >= 1,
        page_abs_of(i) >= 1,
        1 <= page_rel_of(i) <= PAGES_PER_BOOK,
        1 <= entry_of(i) <= 12,
{
    lemma_entry_is_slot(i);
}

/// The side of a card is decided by its position within its page: the first
/// 12 cards of every 24-card page are side A and the last 12 side B, so each
/// new page starts again on side A.
pub proof fn lemma_side_by_position(i: int)
    requires
        i >= 1,
    ensures
        side_of(i) == Side::A <==> (i - 1) % 24 < 12,
        side_of(i + 24) == side_of(i),
{
    lemma_entry_is_slot(i);
    lemma_entry_is_slot(i + 24);
}

/// On the first page the entry of a side-A card is its index, and the entry of
/// a side-B card its index less 12.
pub proof fn lemma_entry_on_first_page(i: int)
    requires
        1 <= i <= 24,
    ensures
        i <= 12 ==> side_of(i) == Side::A && entry_of(i) == i,
        i > 12 ==> side_of(i) == Side::B && entry_of(i) == i - 12,
{
    lemma_entry_is_slot(i);
}

} // verus!
