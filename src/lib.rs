//! Identity resolution and binder placement for a collection of catalog cards.
//!
//! A card is identified by a positive catalog index. From the index alone the
//! library computes where the card sits in a binder (book, page, side, entry);
//! together with the replies of a per-item lookup service and a bulk name
//! dataset it resolves the card's English and German names, or goes from a
//! name back to the index.
use vstd::prelude::*;

pub mod card;
pub mod dataset;
pub mod error;
pub mod expansion;
pub mod item;
pub mod overrides;
pub mod placement;
pub mod pokeapi;
pub mod statistics;
pub mod text;

pub use card::{Bool, Card, Name, Rarity};
pub use error::CardError;
pub use expansion::{highest_rarity, CardExpansion, Expansion};
pub use pokeapi::PokeApi;
pub use placement::{Book, Entry, Index, Page, Side};

verus! {

/// Address of the per-item lookup service; an item is asked for by appending
/// its index or its name and a slash.
pub const BASE_URL: &'static str = "https://pokeapi.co/api/v2/pokemon/";

/// Address of the bulk name dataset.
pub const LANGUAGE_URL: &'static str = "https://raw.githubusercontent.com/PokeAPI/pokeapi/refs/heads/master/data/v2/csv/pokemon_species_names.csv";

/// Address prefix of the card sprites; the sprite of a card is its index followed by `.png`.
pub const SPRITE_URL: &'static str = "https://raw.githubusercontent.com/PokeAPI/sprites/master/sprites/pokemon/";

/// Number of cards one binder book holds.
pub const CARDS_PER_BOOK: usize = 576;

/// Number of cards on one page of a binder (both of its sides together).
pub const CARDS_PER_DOUBLE_PAGE: usize = 24;

/// Number of pages in one binder book.
pub const PAGES_PER_BOOK: usize = CARDS_PER_BOOK / CARDS_PER_DOUBLE_PAGE;

} // verus!
