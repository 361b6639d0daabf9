//! Hand scores and the per-round record of scores, completion and winner.

use vstd::prelude::*;
use crate::card::Card;

verus! {

/// `winner` while no round has been decided.
pub const WINNER_NONE: u8 = 0;

pub const WINNER_PLAYER: u8 = 1;

pub const WINNER_BANKER: u8 = 2;

pub const WINNER_TIE: u8 = 3;

/// The sum of the point values of a hand.
pub open spec fn hand_total(cards: Seq<Card>) -> nat
    decreases cards.len(),
{
    if cards.len() == 0 {
        0
    } else {
        hand_total(cards.drop_last()) + cards.last().point_value()
    }
}

/// The Baccarat score of a hand: its total, of which only the last digit counts.
pub open spec fn hand_score(cards: Seq<Card>) -> nat {
    hand_total(cards) % 10
}

/// The winner that two final scores decide: the strictly higher score wins, equal scores tie.
pub open spec fn winner_of(player_score: int, banker_score: int) -> u8 {
    if player_score > banker_score {
        WINNER_PLAYER
    } else if banker_score > player_score {
        WINNER_BANKER
    } else {
        WINNER_TIE
    }
}

/// Adding a card to a hand adds its point value to the total.
pub proof fn lemma_hand_total_push(cards: Seq<Card>, card: Card)
    ensures
        hand_total(cards.push(card)) == hand_total(cards) + card.point_value(),
{
    assert(cards.push(card).drop_last() =~= cards);
}

/// The scores and the outcome of a round. `round_complete` is 0 while the round is open and 1
/// once it is decided; `winner` is one of [`WINNER_NONE`], [`WINNER_PLAYER`],
/// [`WINNER_BANKER`], [`WINNER_TIE`].
#[derive(Debug, Clone, Copy, PartialEq, Eq, Structural)]
pub struct GameState {
    pub player_score: u8,
    pub banker_score: u8,
    pub round_complete: u8,
    pub winner: u8,
}

impl GameState {
    /// The record of a round that has not begun: no score, not complete, no winner.
    pub fn new() -> (state: Self)
        ensures
            state.player_score == 0,
            state.banker_score == 0,
            state.round_complete == 0,
            state.winner == WINNER_NONE,
    {
        Self { player_score: 0, banker_score: 0, round_complete: 0, winner: 0 }
    }

    /// The score of a hand of any length.
    pub fn calculate_hand_score(cards: &[Card]) -> (score: u8)
        ensures
            score == hand_score(cards@),
            score <= 9,
    {
        let mut score: u8 = 0;
        let mut i: usize = 0;
        while i < cards.len()
            invariant
                i <= cards.len(),
                score == hand_score(cards@.take(i as int)),
                score <= 9,
            decreases cards.len() - i,
        {
            proof {
                assert(cards@.take(i + 1) =~= cards@.take(i as int).push(cards@[i as int]));
                lemma_hand_total_push(cards@.take(i as int), cards@[i as int]);
            }
            score = (score + cards[i].baccarat_value()) % 10;
            i += 1;
        }
        proof {
            assert(cards@.take(i as int) =~= cards@);
        }
        score
    }
}

} // verus!
