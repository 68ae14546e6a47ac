//! Card expansions (printed sets) and the printings of a card in them.
use vstd::prelude::*;

use crate::card::Rarity;
use crate::text::{chars_of, decimal_of, decimal_string, parse_unsigned, parse_unsigned_from};

verus! {

/// A printed set of cards.
#[derive(Debug, Clone, PartialEq, Eq)]
pub struct Expansion {
    pub id: usize,
    pub name: String,
    pub abbreviation: String,
    /// Number of regular cards; numbers above it are secret cards.
    pub cards: usize,
    pub secret_cards: usize,
}

/// A printing of a card in an expansion.
#[derive(Debug, Clone, PartialEq, Eq)]
pub struct CardExpansion {
    /// `None` for a printing not stored yet.
    pub id: Option<usize>,
    pub card_id: usize,
    pub expansion_id: usize,
    pub card_number: String,
    pub rarity: Rarity,
}

/// The position of a rarity in the order from least to most rare.
pub open spec fn rarity_rank(r: Rarity) -> nat {
    match r {
        Rarity::Common => 0,
        Rarity::Uncommon => 1,
        Rarity::Rare => 2,
        Rarity::HoloRare => 3,
        Rarity::ReverseHoloRare => 4,
        Rarity::DoubleRare => 5,
        Rarity::UltraRare => 6,
        Rarity::SecretRare => 7,
        Rarity::Promo => 8,
    }
}

fn rank(r: Rarity) -> (n: u8)
    ensures
        n as nat == rarity_rank(r),
{
    match r {
        Rarity::Common => 0,
        Rarity::Uncommon => 1,
        Rarity::Rare => 2,
        Rarity::HoloRare => 3,
        Rarity::ReverseHoloRare => 4,
        Rarity::DoubleRare => 5,
        Rarity::UltraRare => 6,
        Rarity::SecretRare => 7,
        Rarity::Promo => 8,
    }
}

/// The highest rarity among a card's printings; `Common` for a card with none.
pub fn highest_rarity(printings: &Vec<CardExpansion>) -> (r: Rarity)
    ensures
        printings@.len() == 0 ==> r == Rarity::Common,
        printings@.len() > 0 ==> exists|i: int| 0 <= i < printings@.len() && printings@[i].rarity == r,
        forall|i: int| 0 <= i < printings@.len() ==> rarity_rank(#[trigger] printings@[i].rarity) <= rarity_rank(r),
{
    let mut best = Rarity::Common;
    let mut i: usize = 0;
    while i < printings.len()
        invariant
            i <= printings@.len(),
            i == 0 ==> best == Rarity::Common,
            i > 0 ==> exists|j: int| 0 <= j < i && printings@[j].rarity == best,
            forall|j: int| 0 <= j < i ==> rarity_rank(#[trigger] printings@[j].rarity) <= rarity_rank(best),
        decreases printings@.len() - i,
    {
        let candidate = printings[i].rarity;
        if i == 0 || rank(candidate) >= rank(best) {
            best = candidate;
        }
        i = i + 1;
    }
    best
}

impl Expansion {
    /// The expansion's name followed by its abbreviation in parentheses.
    pub fn to_string(&self) -> (r: String)
        ensures
            r@ == self.name@ + " ("@ + self.abbreviation@ + ")"@,
    {
        let mut s = self.name.clone();
        s.append(" (");
        s.append(self.abbreviation.as_str());
        s.append(")");
        s
    }
}

impl CardExpansion {
    /// Whether the printing is a secret card: its number is a decimal number
    /// above the expansion's count of regular cards. A number that is not
    /// decimal (a promo code) is no secret card.
    pub fn is_secret(&self, expansion: &Expansion) -> (r: bool)
        ensures
            r == (parse_unsigned(self.card_number@, 10, usize::MAX as nat) matches Some(n) && n > expansion.cards),
    {
        let chars = chars_of(self.card_number.as_str());
        assert(chars@.skip(0) =~= chars@);
        match parse_unsigned_from(&chars, 0, 10, usize::MAX) {
            Some(n) => n > expansion.cards,
            None => false,
        }
    }

    /// The card number shown against the expansion's regular cards, as `24/165`.
    pub fn display_card_number(&self, expansion: &Expansion) -> (r: String)
        ensures
            r@ == self.card_number@ + "/"@ + decimal_of(expansion.cards as nat),
    {
        let mut s = self.card_number.clone();
        s.append("/");
        let digits = decimal_string(expansion.cards);
        s.append(digits.as_str());
        s
    }
}

} // verus!
