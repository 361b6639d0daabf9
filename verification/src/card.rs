//! Playing cards and their Baccarat point values.

use vstd::prelude::*;

verus! {

/// A suit, as a small number: one of [`HEARTS`], [`DIAMONDS`], [`CLUBS`], [`SPADES`].
pub type Suit = u8;

pub const HEARTS: u8 = 0;

pub const DIAMONDS: u8 = 1;

pub const CLUBS: u8 = 2;

pub const SPADES: u8 = 3;

/// A playing card. A card of a real deck has a suit below 4 and a rank from 1 (ace) to 13 (king).
#[derive(Debug, Clone, Copy, PartialEq, Eq, Structural)]
pub struct Card {
    pub suit: Suit,
    pub rank: u8,
}

impl Card {
    /// A card that a real deck holds.
    pub open spec fn is_valid(self) -> bool {
        self.suit < 4 && 1 <= self.rank <= 13
    }

    /// The Baccarat point value: ace to nine count their rank, tens and faces count zero.
    pub open spec fn point_value(self) -> nat {
        if 1 <= self.rank <= 9 {
            self.rank as nat
        } else {
            0
        }
    }

    /// A card of the given suit and rank.
    pub fn new(suit: Suit, rank: u8) -> (card: Self)
        ensures
            card.suit == suit,
            card.rank == rank,
    {
        Self { suit, rank }
    }

    /// The Baccarat point value of the card.
    pub fn baccarat_value(&self) -> (value: u8)
        ensures
            value == self.point_value(),
            value <= 9,
    {
        if 1 <= self.rank && self.rank <= 9 {
            self.rank
        } else {
            0
        }
    }
}

} // verus!
