//! The staged reveal of the cards of a round: which cards are shown after how much time.
//!
//! The round itself is played at once; the reveal only replays it, one card a second.

use vstd::prelude::*;
use crate::card::Card;
use crate::card_renderer::{card_back, card_face, lines_are, CardRenderer};

verus! {

/// The time, in milliseconds, after which the next card is revealed.
pub const REVEAL_INTERVAL_MILLIS: u128 = 1000;

/// A card of a round on show, face down until it is revealed.
#[derive(Debug, Clone, Copy)]
pub struct CardAnimation {
    pub card: Card,
    pub revealed: bool,
    pub position: usize,
}

impl CardAnimation {
    /// A card at the given position, face down.
    pub fn new(card: Card, position: usize) -> (animation: Self)
        ensures
            animation.card == card,
            !animation.revealed,
            animation.position == position,
    {
        Self { card, revealed: false, position }
    }

    /// The card as it shows, line by line: its face once it is revealed, its back before.
    pub fn render(&self) -> (lines: Vec<String>)
        ensures
            lines_are(
                lines@,
                if self.revealed {
                    card_face(self.card)
                } else {
                    card_back()
                },
            ),
    {
        if self.revealed {
            CardRenderer::render_card(&self.card)
        } else {
            CardRenderer::render_card_back()
        }
    }

    /// Turns the card face up.
    pub fn reveal_card(&mut self)
        ensures
            final(self).revealed,
            final(self).card == old(self).card,
            final(self).position == old(self).position,
    {
        self.revealed = true;
    }
}

/// The number of cards, out of `count`, that are due after `elapsed_millis`: one for each full
/// interval, and no more than there are.
pub open spec fn cards_due(elapsed_millis: int, count: int) -> int {
    if elapsed_millis / (REVEAL_INTERVAL_MILLIS as int) >= count {
        count
    } else {
        elapsed_millis / (REVEAL_INTERVAL_MILLIS as int)
    }
}

/// The cards as they come on show: each at its position, face down.
pub open spec fn face_down(cards: Seq<Card>) -> Seq<CardAnimation> {
    Seq::new(
        cards.len(),
        |i: int| CardAnimation { card: cards[i], revealed: false, position: i as usize },
    )
}

/// The reveal of the cards of one round. While `dealing`, the cards below
/// `current_reveal_index` have been revealed.
#[derive(Debug)]
pub struct AnimationState {
    pub dealing: bool,
    pub cards_to_reveal: Vec<CardAnimation>,
    pub current_reveal_index: usize,
}

impl AnimationState {
    /// No reveal under way.
    pub fn new() -> (state: Self)
        ensures
            !state.dealing,
            state.cards_to_reveal@.len() == 0,
            state.current_reveal_index == 0,
    {
        Self { dealing: false, cards_to_reveal: Vec::new(), current_reveal_index: 0 }
    }

    /// Starts the reveal of the given cards, all face down.
    pub fn start_dealing(&mut self, cards: Vec<Card>)
        ensures
            final(self).dealing,
            final(self).cards_to_reveal@ == face_down(cards@),
            final(self).current_reveal_index == 0,
    {
        let mut shown: Vec<CardAnimation> = Vec::new();
        let mut i: usize = 0;
        while i < cards.len()
            invariant
                i <= cards@.len(),
                shown@ == face_down(cards@.take(i as int)),
            decreases cards@.len() - i,
        {
            proof {
                assert(face_down(cards@.take(i + 1)) =~= face_down(cards@.take(i as int)).push(
                    CardAnimation { card: cards@[i as int], revealed: false, position: i },
                ));
            }
            shown.push(CardAnimation::new(cards[i], i));
            i += 1;
        }
        proof {
            assert(cards@.take(i as int) =~= cards@);
        }
        self.dealing = true;
        self.cards_to_reveal = shown;
        self.current_reveal_index = 0;
    }

    /// Brings the reveal up to the time that has passed since it started: every card that is
    /// due and has not been reached before is turned face up, and the reveal ends once all
    /// cards are due. Without a reveal under way nothing changes.
    pub fn update(&mut self, elapsed_millis: u128)
        ensures
            !old(self).dealing ==> *final(self) == *old(self),
            old(self).dealing ==> {
                let due: int = cards_due(
                    elapsed_millis as int,
                    old(self).cards_to_reveal@.len() as int,
                );
                &&& final(self).current_reveal_index == due
                &&& final(self).dealing == (due < old(self).cards_to_reveal@.len())
                &&& final(self).cards_to_reveal@.len() == old(self).cards_to_reveal@.len()
                &&& forall|i: int|
                    0 <= i < old(self).cards_to_reveal@.len() ==> {
                        let before = old(self).cards_to_reveal@[i];
                        let after = #[trigger] final(self).cards_to_reveal@[i];
                        &&& after.card == before.card
                        &&& after.position == before.position
                        &&& after.revealed == (before.revealed || old(self).current_reveal_index
                            <= i < due)
                    }
            },
    {
        if !self.dealing {
            return ;
        }
        let count: usize = self.cards_to_reveal.len();
        let intervals: u128 = elapsed_millis / REVEAL_INTERVAL_MILLIS;
        let due: usize = if intervals >= count as u128 {
            count
        } else {
            intervals as usize
        };
        let mut i: usize = self.current_reveal_index;
        while i < due
            invariant
                due <= count,
                count == self.cards_to_reveal@.len(),
                count == old(self).cards_to_reveal@.len(),
                old(self).current_reveal_index <= i,
                i <= due || i == old(self).current_reveal_index,
                self.dealing == old(self).dealing,
                self.current_reveal_index == old(self).current_reveal_index,
                forall|j: int|
                    0 <= j < count ==> {
                        let before = old(self).cards_to_reveal@[j];
                        let after = #[trigger] self.cards_to_reveal@[j];
                        &&& after.card == before.card
                        &&& after.position == before.position
                        &&& after.revealed == (before.revealed || old(self).current_reveal_index
                            <= j < i)
                    },
            decreases due - i,
        {
            let shown = CardAnimation {
                card: self.cards_to_reveal[i].card,
                revealed: true,
                position: self.cards_to_reveal[i].position,
            };
            self.cards_to_reveal[i] = shown;
            i += 1;
        }
        self.current_reveal_index = due;
        if self.current_reveal_index >= self.cards_to_reveal.len() {
            self.dealing = false;
        }
    }

    /// Whether no reveal is under way.
    pub fn is_complete(&self) -> (complete: bool)
        ensures
            complete == !self.dealing,
    {
        !self.dealing
    }
}

} // verus!
