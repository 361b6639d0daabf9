//! The rules of a round: the initial deal, naturals, the third-card table, and what a round
//! comes to for given hands and a given card source.
//!
//! The cards still to come are a sequence whose last element is dealt next, as in a card source.

use vstd::prelude::*;
use crate::card::Card;
use crate::state::{hand_score, winner_of, WINNER_BANKER, WINNER_PLAYER, WINNER_TIE};

verus! {

/// The card that is dealt after `already` others have left the source.
pub open spec fn upcoming(cards: Seq<Card>, already: int) -> Card {
    cards[cards.len() - 1 - already]
}

/// Whether a hand of two cards or more opens with two cards of one rank.
pub open spec fn opens_with_pair(hand: Seq<Card>) -> bool {
    hand.len() >= 2 && hand[0].rank == hand[1].rank
}

/// Whether a hand of two cards or more opens with two cards of one rank and one suit.
pub open spec fn opens_with_perfect_pair(hand: Seq<Card>) -> bool {
    hand.len() >= 2 && hand[0].rank == hand[1].rank && hand[0].suit == hand[1].suit
}

/// The third-card table of the banker. `player_third` is the point value of the third card
/// that the player drew, or `None` where the player stood.
///
/// | banker's score | the banker draws                                    |
/// |----------------|-----------------------------------------------------|
/// | 0, 1, 2        | always                                              |
/// | 3              | unless the player drew an 8 (so also after a stand) |
/// | 4              | if the player drew 2 to 7                           |
/// | 5              | if the player drew 4 to 7                           |
/// | 6              | if the player drew 6 or 7                           |
/// | 7 and more     | never                                               |
pub open spec fn banker_draws(banker_score: int, player_third: Option<u8>) -> bool {
    if banker_score <= 2 {
        true
    } else if banker_score == 3 {
        player_third != Some(8u8)
    } else if banker_score == 4 {
        player_third is Some && 2 <= player_third->0 <= 7
    } else if banker_score == 5 {
        player_third is Some && 4 <= player_third->0 <= 7
    } else if banker_score == 6 {
        player_third is Some && 6 <= player_third->0 <= 7
    } else {
        false
    }
}

/// Whether the banker takes a third card, by the third-card table.
pub fn banker_should_draw(banker_score: u8, player_third_value: Option<u8>) -> (draws: bool)
    ensures
        draws == banker_draws(banker_score as int, player_third_value),
{
    match banker_score {
        0 | 1 | 2 => true,
        3 => match player_third_value {
            Some(value) => value != 8,
            None => true,
        },
        4 => match player_third_value {
            Some(value) => 2 <= value && value <= 7,
            None => false,
        },
        5 => match player_third_value {
            Some(value) => 4 <= value && value <= 7,
            None => false,
        },
        6 => match player_third_value {
            Some(value) => value == 6 || value == 7,
            None => false,
        },
        _ => false,
    }
}

/// A round as it starts: the two hands as the round finds them, which are empty where a game
/// begins the round, and the cards still in the source.
pub struct Table {
    pub player: Seq<Card>,
    pub banker: Seq<Card>,
    pub cards: Seq<Card>,
}

impl Table {
    /// The player's hand after the initial deal: the first and the third card go to the
    /// player.
    pub open spec fn player_initial(self) -> Seq<Card> {
        self.player.push(upcoming(self.cards, 0)).push(upcoming(self.cards, 2))
    }

    /// The banker's hand after the initial deal: the second and the fourth card go to the
    /// banker.
    pub open spec fn banker_initial(self) -> Seq<Card> {
        self.banker.push(upcoming(self.cards, 1)).push(upcoming(self.cards, 3))
    }

    /// A natural: after the initial deal one of the hands scores 8 or 9.
    pub open spec fn is_natural(self) -> bool {
        hand_score(self.player_initial()) >= 8 || hand_score(self.banker_initial()) >= 8
    }

    /// The player draws a third card unless there is a natural or the player's hand scores 6 or
    /// more.
    pub open spec fn player_draws(self) -> bool {
        !self.is_natural() && hand_score(self.player_initial()) <= 5
    }

    /// The point value of the player's third card, where one was drawn.
    pub open spec fn player_third(self) -> Option<u8> {
        if self.player_draws() {
            Some(upcoming(self.cards, 4).point_value() as u8)
        } else {
            None
        }
    }

    /// The banker draws a third card where there is no natural and the table says so.
    pub open spec fn banker_draws(self) -> bool {
        !self.is_natural() && banker_draws(
            hand_score(self.banker_initial()) as int,
            self.player_third(),
        )
    }

    /// The number of cards that the round takes from the source.
    pub open spec fn cards_drawn(self) -> nat {
        (4 + if self.player_draws() {
            1int
        } else {
            0int
        } + if self.banker_draws() {
            1int
        } else {
            0int
        }) as nat
    }

    /// The number of cards that the source must hold for the round to be played to its end.
    pub open spec fn cards_needed(self) -> nat {
        if self.cards.len() < 4 {
            4
        } else {
            self.cards_drawn()
        }
    }

    /// The player's hand at the end of the round.
    pub open spec fn player_final(self) -> Seq<Card> {
        if self.player_draws() {
            self.player_initial().push(upcoming(self.cards, 4))
        } else {
            self.player_initial()
        }
    }

    /// The banker's hand at the end of the round. The banker's third card comes after the
    /// player's, where the player drew one.
    pub open spec fn banker_final(self) -> Seq<Card> {
        if self.banker_draws() {
            self.banker_initial().push(upcoming(self.cards, self.cards_drawn() - 1))
        } else {
            self.banker_initial()
        }
    }

    /// The winner of the round, decided by the scores of the final hands.
    pub open spec fn winner(self) -> u8 {
        winner_of(hand_score(self.player_final()) as int, hand_score(self.banker_final()) as int)
    }
}

/// A round takes four, five or six cards from the source.
pub proof fn lemma_cards_drawn_bounds(table: Table)
    ensures
        4 <= table.cards_drawn() <= 6,
        table.cards_needed() <= 6,
        table.player_final().len() == table.player.len() + 2 + if table.player_draws() {
            1int
        } else {
            0int
        },
        table.banker_final().len() == table.banker.len() + 2 + if table.banker_draws() {
            1int
        } else {
            0int
        },
        table.player_final().len() + table.banker_final().len() == table.player.len()
            + table.banker.len() + table.cards_drawn(),
{
}

/// After a natural no third card is drawn: the round takes exactly four cards.
pub proof fn lemma_natural_draws_four(table: Table)
    requires
        table.is_natural(),
    ensures
        table.cards_drawn() == 4,
        table.player_final() == table.player_initial(),
        table.banker_final() == table.banker_initial(),
{
}

/// Every round has a winner: the player, the banker, or a tie. A side wins exactly where its
/// final hand scores more than the other, and equal scores tie.
pub proof fn lemma_round_has_winner(table: Table)
    ensures
        table.winner() == WINNER_PLAYER || table.winner() == WINNER_BANKER || table.winner()
            == WINNER_TIE,
        table.winner() == WINNER_PLAYER <==> hand_score(table.player_final()) > hand_score(
            table.banker_final(),
        ),
        table.winner() == WINNER_BANKER <==> hand_score(table.banker_final()) > hand_score(
            table.player_final(),
        ),
        table.winner() == WINNER_TIE <==> hand_score(table.banker_final()) == hand_score(
            table.player_final(),
        ),
{
}

/// Where the player stands, the banker draws exactly on a score of 3 or less.
pub proof fn lemma_banker_after_player_stood(banker_score: int)
    ensures
        banker_draws(banker_score, None) <==> banker_score <= 3,
{
}

} // verus!
