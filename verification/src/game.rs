//! The game: a card source, the two hands, the record of the round, and the play of one
//! round from the initial deal to the winner.

use vstd::prelude::*;
use crate::bonus::BonusBets;
use crate::card::Card;
use crate::mode::GameMode;
use crate::rules::{
    banker_draws, banker_should_draw, opens_with_pair, opens_with_perfect_pair, Table,
};
use crate::source::{standard_deck, CardSource, Deck, Randomness, Shoe};
use crate::state::{
    hand_score, winner_of, GameState, WINNER_BANKER, WINNER_NONE, WINNER_PLAYER, WINNER_TIE,
};

verus! {

/// A game of Baccarat: the source of its cards, the hands and the record of the round last
/// begun, the variant, and the side wagers attached to it. Every round begins with empty
/// hands and an empty record, so a hand never holds more than three cards, and the scores in
/// `state` are those of the hands whenever a method of the game has dealt.
pub struct BaccaratGame {
    pub card_source: CardSource,
    pub player_hand: Vec<Card>,
    pub banker_hand: Vec<Card>,
    pub state: GameState,
    pub mode: GameMode,
    pub bonus_bets: BonusBets,
}

impl BaccaratGame {
    /// Empty hands and the cards to come: what the next round finds, whatever the hands hold
    /// now.
    pub open spec fn next_round(&self) -> Table {
        Table { player: Seq::empty(), banker: Seq::empty(), cards: self.card_source.cards() }
    }

    /// The record of a round that has begun and in which nothing has been dealt.
    pub open spec fn empty_record() -> GameState {
        GameState { player_score: 0, banker_score: 0, round_complete: 0, winner: WINNER_NONE }
    }

    /// A game in which nothing has been dealt and no side wager is placed.
    pub open spec fn is_unplayed(&self, mode: GameMode) -> bool {
        &&& self.player_hand@.len() == 0
        &&& self.banker_hand@.len() == 0
        &&& self.state == Self::empty_record()
        &&& self.mode == mode
        &&& self.bonus_bets == crate::bonus::no_bets()
        &&& self.card_source.wf()
    }

    /// Whether the game holds the round that a deck gives from empty hands: the hands, the
    /// scores and the winner of that round, and in the source, whose shuffles no run repeats,
    /// what the round has left of the deck.
    pub open spec fn holds_round_of(&self, deck: Seq<Card>) -> bool {
        let table = Table { player: Seq::empty(), banker: Seq::empty(), cards: deck };
        &&& self.player_hand@ == table.player_final()
        &&& self.banker_hand@ == table.banker_final()
        &&& self.state == (GameState {
            player_score: hand_score(table.player_final()) as u8,
            banker_score: hand_score(table.banker_final()) as u8,
            round_complete: 1,
            winner: table.winner(),
        })
        &&& self.card_source is SingleDeck
        &&& self.card_source.cards() == deck.take(deck.len() - table.cards_drawn())
        &&& self.card_source.randomness() == Randomness::Entropy
    }

    /// Whether the game holds a round played from empty hands on a full deck in some order.
    pub open spec fn holds_fresh_round(&self) -> bool {
        exists|deck: Seq<Card>| #[trigger]
            deck.to_multiset() == standard_deck().to_multiset() && self.holds_round_of(deck)
    }

    /// Whether the scores on record are those of the hands.
    pub open spec fn scores_agree(&self) -> bool {
        &&& self.state.player_score == hand_score(self.player_hand@)
        &&& self.state.banker_score == hand_score(self.banker_hand@)
    }

    /// The player's hand opens with two cards of one rank.
    pub open spec fn spec_is_player_pair(&self) -> bool {
        opens_with_pair(self.player_hand@)
    }

    /// The banker's hand opens with two cards of one rank.
    pub open spec fn spec_is_banker_pair(&self) -> bool {
        opens_with_pair(self.banker_hand@)
    }

    /// One of the hands opens with two cards of one rank.
    pub open spec fn spec_is_either_pair(&self) -> bool {
        self.spec_is_player_pair() || self.spec_is_banker_pair()
    }

    /// One of the hands opens with two cards of one rank and one suit.
    pub open spec fn spec_is_perfect_pair(&self) -> bool {
        opens_with_perfect_pair(self.player_hand@) || opens_with_perfect_pair(self.banker_hand@)
    }

    /// The banker has won with three cards and a score of 7.
    pub open spec fn spec_is_dragon_7(&self) -> bool {
        self.state.winner == WINNER_BANKER && self.state.banker_score == 7
            && self.banker_hand@.len() == 3
    }

    /// The player has won with three cards and a score of 8.
    pub open spec fn spec_is_panda_8(&self) -> bool {
        self.state.winner == WINNER_PLAYER && self.state.player_score == 8
            && self.player_hand@.len() == 3
    }

    /// The distance between the two scores where a side has won, and 0 otherwise.
    pub open spec fn spec_victory_margin(&self) -> int {
        if self.state.winner == WINNER_NONE || self.state.winner == WINNER_TIE {
            0
        } else if self.state.player_score >= self.state.banker_score {
            self.state.player_score - self.state.banker_score
        } else {
            self.state.banker_score - self.state.player_score
        }
    }

    /// A game on a single deck that has been shuffled once by the given randomness.
    pub open spec fn is_on_shuffled_deck(&self, randomness: Randomness) -> bool {
        &&& self.card_source is SingleDeck
        &&& self.card_source.cards().to_multiset() == standard_deck().to_multiset()
        &&& self.card_source.cards().len() == 52
        &&& self.card_source.randomness() == randomness.spec_advanced()
    }

    /// A classic game on a single shuffled deck.
    pub fn new() -> (game: Self)
        ensures
            game.is_unplayed(GameMode::Classic),
            game.is_on_shuffled_deck(Randomness::Entropy),
    {
        Self::with_mode(GameMode::Classic)
    }

    /// A game of the given variant on a single shuffled deck.
    pub fn with_mode(mode: GameMode) -> (game: Self)
        ensures
            game.is_unplayed(mode),
            game.is_on_shuffled_deck(Randomness::Entropy),
    {
        Self::on_deck(mode, Deck::new())
    }

    /// A game of the given variant on a single deck whose shuffles follow from the seed.
    pub fn with_seed(mode: GameMode, seed: u64) -> (game: Self)
        ensures
            game.is_unplayed(mode),
            game.is_on_shuffled_deck(Randomness::Seeded(seed)),
    {
        Self::on_deck(mode, Deck::seeded(seed))
    }

    /// A game of the given variant on the given fresh deck, shuffled.
    fn on_deck(mode: GameMode, deck: Deck) -> (game: Self)
        requires
            deck@.cards == standard_deck(),
        ensures
            game.is_unplayed(mode),
            game.is_on_shuffled_deck(deck@.randomness),
    {
        let mut deck = deck;
        deck.shuffle();
        Self {
            card_source: CardSource::SingleDeck(deck),
            player_hand: Vec::new(),
            banker_hand: Vec::new(),
            state: GameState::new(),
            mode,
            bonus_bets: BonusBets::new(),
        }
    }

    /// A game of the given variant on a shuffled shoe of `num_decks` decks.
    pub fn with_shoe(mode: GameMode, num_decks: usize) -> (game: Self)
        requires
            1 <= num_decks,
            52 * num_decks <= usize::MAX,
        ensures
            game.is_unplayed(mode),
            game.card_source matches CardSource::Shoe(shoe) && shoe@.is_fresh(
                num_decks as nat,
                Randomness::Entropy,
            ),
    {
        Self::on_shoe(mode, Shoe::new(num_decks))
    }

    /// A game of the given variant on a shoe of `num_decks` decks whose shuffles follow from
    /// the seed.
    pub fn with_shoe_seeded(mode: GameMode, num_decks: usize, seed: u64) -> (game: Self)
        requires
            1 <= num_decks,
            52 * num_decks <= usize::MAX,
        ensures
            game.is_unplayed(mode),
            game.card_source matches CardSource::Shoe(shoe) && shoe@.is_fresh(
                num_decks as nat,
                Randomness::Seeded(seed),
            ),
    {
        Self::on_shoe(mode, Shoe::seeded(num_decks, seed))
    }

    /// A game of the given variant on the given shoe.
    fn on_shoe(mode: GameMode, shoe: Shoe) -> (game: Self)
        requires
            shoe.wf(),
        ensures
            game.is_unplayed(mode),
            game.card_source == CardSource::Shoe(shoe),
    {
        Self {
            card_source: CardSource::Shoe(shoe),
            player_hand: Vec::new(),
            banker_hand: Vec::new(),
            state: GameState::new(),
            mode,
            bonus_bets: BonusBets::new(),
        }
    }

    /// Takes the next card from the source. The source must hold one.
    fn draw(&mut self) -> (card: Card)
        requires
            old(self).card_source.wf(),
            old(self).card_source.cards().len() > 0,
        ensures
            card == old(self).card_source.cards().last(),
            final(self).card_source.wf(),
            final(self).card_source.has_dealt(old(self).card_source, 1),
            final(self).player_hand == old(self).player_hand,
            final(self).banker_hand == old(self).banker_hand,
            final(self).state == old(self).state,
            final(self).mode == old(self).mode,
            final(self).bonus_bets == old(self).bonus_bets,
    {
        self.card_source.deal().unwrap()
    }

    /// Brings the two scores on record up to the hands.
    pub fn update_scores(&mut self)
        ensures
            final(self).state == (GameState {
                player_score: hand_score(old(self).player_hand@) as u8,
                banker_score: hand_score(old(self).banker_hand@) as u8,
                ..old(self).state
            }),
            final(self).scores_agree(),
            final(self).card_source == old(self).card_source,
            final(self).player_hand == old(self).player_hand,
            final(self).banker_hand == old(self).banker_hand,
            final(self).mode == old(self).mode,
            final(self).bonus_bets == old(self).bonus_bets,
    {
        self.state.player_score = GameState::calculate_hand_score(self.player_hand.as_slice());
        self.state.banker_score = GameState::calculate_hand_score(self.banker_hand.as_slice());
    }

    /// Begins a round: both hands are emptied and the record of the round is set back. The
    /// source, the variant and the side wagers stay as they are.
    pub fn begin_round(&mut self)
        ensures
            final(self).player_hand@ == Seq::<Card>::empty(),
            final(self).banker_hand@ == Seq::<Card>::empty(),
            final(self).state == Self::empty_record(),
            final(self).card_source == old(self).card_source,
            final(self).mode == old(self).mode,
            final(self).bonus_bets == old(self).bonus_bets,
    {
        self.player_hand.clear();
        self.banker_hand.clear();
        self.state = GameState::new();
    }

    /// The initial deal of a new round: the round begins with empty hands and an empty record,
    /// and four cards are dealt, to the player, the banker, the player and the banker. Each
    /// hand then holds two cards, and the scores on record are those of the hands.
    pub fn deal_initial_cards(&mut self)
        requires
            old(self).card_source.wf(),
            old(self).card_source.cards().len() >= 4,
        ensures
            final(self).player_hand@ == old(self).next_round().player_initial(),
            final(self).banker_hand@ == old(self).next_round().banker_initial(),
            final(self).player_hand@.len() == 2,
            final(self).banker_hand@.len() == 2,
            final(self).card_source.wf(),
            final(self).card_source.has_dealt(old(self).card_source, 4),
            final(self).state == (GameState {
                player_score: hand_score(old(self).next_round().player_initial()) as u8,
                banker_score: hand_score(old(self).next_round().banker_initial()) as u8,
                round_complete: 0,
                winner: WINNER_NONE,
            }),
            final(self).mode == old(self).mode,
            final(self).bonus_bets == old(self).bonus_bets,
    {
        self.begin_round();
        let ghost start = self.card_source;
        let first = self.draw();
        self.player_hand.push(first);
        let ghost after_one = self.card_source;
        let second = self.draw();
        self.banker_hand.push(second);
        let ghost after_two = self.card_source;
        let third = self.draw();
        self.player_hand.push(third);
        let ghost after_three = self.card_source;
        let fourth = self.draw();
        self.banker_hand.push(fourth);
        proof {
            start.lemma_has_dealt_nothing();
            after_one.lemma_has_dealt_more(start, start, 0, 1);
            after_two.lemma_has_dealt_more(start, after_one, 1, 1);
            after_three.lemma_has_dealt_more(start, after_two, 2, 1);
            self.card_source.lemma_has_dealt_more(start, after_three, 3, 1);
        }
        self.update_scores();
    }

    /// The banker's third card. The banker's score on record and the point value of the
    /// player's third card (`None` where the player stood) decide by the third-card table
    /// whether the banker draws; a card drawn goes to the banker's hand, and the scores are
    /// brought up to the hands. The banker's hand must have room for the card: a hand holds
    /// three cards at most.
    pub fn banker_draw_logic(&mut self, player_third_value: Option<u8>)
        requires
            old(self).card_source.wf(),
            old(self).banker_hand@.len() <= 2,
            banker_draws(old(self).state.banker_score as int, player_third_value)
                ==> old(self).card_source.cards().len() > 0,
        ensures
            final(self).card_source.wf(),
            final(self).mode == old(self).mode,
            final(self).bonus_bets == old(self).bonus_bets,
            final(self).player_hand == old(self).player_hand,
            final(self).banker_hand@.len() <= 3,
            banker_draws(old(self).state.banker_score as int, player_third_value) ==> {
                &&& final(self).banker_hand@ == old(self).banker_hand@.push(
                    old(self).card_source.cards().last(),
                )
                &&& final(self).card_source.has_dealt(old(self).card_source, 1)
                &&& final(self).state == (GameState {
                    player_score: hand_score(final(self).player_hand@) as u8,
                    banker_score: hand_score(final(self).banker_hand@) as u8,
                    ..old(self).state
                })
            },
            !banker_draws(old(self).state.banker_score as int, player_third_value) ==> {
                &&& final(self).banker_hand == old(self).banker_hand
                &&& final(self).card_source == old(self).card_source
                &&& final(self).state == old(self).state
            },
    {
        if banker_should_draw(self.state.banker_score, player_third_value) {
            let card = self.draw();
            self.banker_hand.push(card);
            self.update_scores();
        }
    }

    /// Closes the round: the higher score on record wins, equal scores tie.
    pub fn determine_winner(&mut self)
        ensures
            final(self).state == (GameState {
                round_complete: 1,
                winner: winner_of(
                    old(self).state.player_score as int,
                    old(self).state.banker_score as int,
                ),
                ..old(self).state
            }),
            final(self).card_source == old(self).card_source,
            final(self).player_hand == old(self).player_hand,
            final(self).banker_hand == old(self).banker_hand,
            final(self).mode == old(self).mode,
            final(self).bonus_bets == old(self).bonus_bets,
    {
        self.state.round_complete = 1;
        self.state.winner = if self.state.player_score > self.state.banker_score {
            WINNER_PLAYER
        } else if self.state.banker_score > self.state.player_score {
            WINNER_BANKER
        } else {
            WINNER_TIE
        };
    }

    /// Plays one round from its beginning to its end. The round begins with empty hands and an
    /// empty record, whatever the game held before; then come the initial deal, unless a hand
    /// has a natural the player's third card on a score of 5 or less and the banker's third
    /// card by the third-card table, and at last the winner. The hands, the scores and the
    /// winner are those of the new round alone. The source must hold the cards that the round
    /// takes, which are never more than six.
    pub fn play_round(&mut self)
        requires
            old(self).card_source.wf(),
            old(self).card_source.cards().len() >= old(self).next_round().cards_needed(),
        ensures
            final(self).player_hand@ == old(self).next_round().player_final(),
            final(self).banker_hand@ == old(self).next_round().banker_final(),
            2 <= final(self).player_hand@.len() <= 3,
            2 <= final(self).banker_hand@.len() <= 3,
            final(self).card_source.wf(),
            final(self).card_source.has_dealt(
                old(self).card_source,
                old(self).next_round().cards_drawn(),
            ),
            final(self).state == (GameState {
                player_score: hand_score(old(self).next_round().player_final()) as u8,
                banker_score: hand_score(old(self).next_round().banker_final()) as u8,
                round_complete: 1,
                winner: old(self).next_round().winner(),
            }),
            final(self).mode == old(self).mode,
            final(self).bonus_bets == old(self).bonus_bets,
            final(self).scores_agree(),
            final(self).state.round_complete == 1,
            final(self).state.winner == WINNER_PLAYER || final(self).state.winner == WINNER_BANKER
                || final(self).state.winner == WINNER_TIE,
            4 <= old(self).next_round().cards_drawn() <= 6,
            old(self).next_round().is_natural() ==> old(self).next_round().cards_drawn() == 4,
            final(self).player_hand@.len() + final(self).banker_hand@.len()
                == old(self).next_round().cards_drawn(),
            final(self).card_source.cards().len() + old(self).next_round().cards_drawn()
                == old(self).card_source.cards().len(),
    {
        let ghost table = self.next_round();
        let ghost start = self.card_source;
        self.deal_initial_cards();
        let ghost after_initial = self.card_source;
        if self.state.player_score >= 8 || self.state.banker_score >= 8 {
            self.determine_winner();
            return ;
        }
        let player_third_card = if self.state.player_score <= 5 {
            proof {
                after_initial.lemma_has_dealt_nothing();
                after_initial.lemma_has_dealt_more(start, after_initial, 4, 0);
            }
            let card = self.draw();
            self.player_hand.push(card);
            self.update_scores();
            Some(card.baccarat_value())
        } else {
            None
        };
        let ghost after_player = self.card_source;
        proof {
            after_player.lemma_has_dealt_nothing();
            if table.player_draws() {
                after_player.lemma_has_dealt_more(start, after_initial, 4, 1);
            }
            after_player.lemma_has_dealt_more(
                start,
                after_player,
                (table.cards_drawn() - if table.banker_draws() {
                    1int
                } else {
                    0int
                }) as nat,
                0,
            );
        }
        self.banker_draw_logic(player_third_card);
        proof {
            if table.banker_draws() {
                self.card_source.lemma_has_dealt_more(
                    start,
                    after_player,
                    (table.cards_drawn() - 1) as nat,
                    1,
                );
            }
        }
        self.determine_winner();
    }

    /// Whether the player's hand opens with two cards of one rank.
    pub fn is_player_pair(&self) -> (pair: bool)
        ensures
            pair == self.spec_is_player_pair(),
    {
        self.player_hand.len() >= 2 && self.player_hand[0].rank == self.player_hand[1].rank
    }

    /// The distance between the two scores where a side has won, and 0 otherwise.
    pub fn victory_margin(&self) -> (margin: u8)
        ensures
            margin == self.spec_victory_margin(),
    {
        if self.state.winner == WINNER_NONE || self.state.winner == WINNER_TIE {
            0
        } else if self.state.player_score >= self.state.banker_score {
            self.state.player_score - self.state.banker_score
        } else {
            self.state.banker_score - self.state.player_score
        }
    }

    /// Whether the banker's hand opens with two cards of one rank.
    pub fn is_banker_pair(&self) -> (pair: bool)
        ensures
            pair == self.spec_is_banker_pair(),
    {
        self.banker_hand.len() >= 2 && self.banker_hand[0].rank == self.banker_hand[1].rank
    }

    /// Whether one of the hands opens with two cards of one rank.
    pub fn is_either_pair(&self) -> (pair: bool)
        ensures
            pair == self.spec_is_either_pair(),
    {
        self.is_player_pair() || self.is_banker_pair()
    }

    /// Whether one of the hands opens with two cards of one rank and one suit.
    pub fn is_perfect_pair(&self) -> (pair: bool)
        ensures
            pair == self.spec_is_perfect_pair(),
    {
        let player_perfect = self.player_hand.len() >= 2 && self.player_hand[0].rank
            == self.player_hand[1].rank && self.player_hand[0].suit == self.player_hand[1].suit;
        let banker_perfect = self.banker_hand.len() >= 2 && self.banker_hand[0].rank
            == self.banker_hand[1].rank && self.banker_hand[0].suit == self.banker_hand[1].suit;
        player_perfect || banker_perfect
    }

    /// Whether the banker has won with three cards and a score of 7.
    pub fn is_dragon_7(&self) -> (dragon: bool)
        ensures
            dragon == self.spec_is_dragon_7(),
    {
        self.state.winner == WINNER_BANKER && self.state.banker_score == 7
            && self.banker_hand.len() == 3
    }

    /// Whether the player has won with three cards and a score of 8.
    pub fn is_panda_8(&self) -> (panda: bool)
        ensures
            panda == self.spec_is_panda_8(),
    {
        self.state.winner == WINNER_PLAYER && self.state.player_score == 8
            && self.player_hand.len() == 3
    }

    /// Replaces the side wagers that are attached to the game.
    pub fn set_bonus_bets(&mut self, bets: BonusBets)
        ensures
            final(self).bonus_bets == bets,
            final(self).card_source == old(self).card_source,
            final(self).player_hand == old(self).player_hand,
            final(self).banker_hand == old(self).banker_hand,
            final(self).state == old(self).state,
            final(self).mode == old(self).mode,
    {
        self.bonus_bets = bets;
    }
}

/// A game whose source does not ask for a reshuffle can play a round: the source holds the
/// cards that the round takes.
pub proof fn lemma_round_can_be_played(game: BaccaratGame)
    requires
        game.card_source.wf(),
        !game.card_source.spec_needs_reshuffle(),
    ensures
        game.card_source.cards().len() >= game.next_round().cards_needed(),
{
    game.card_source.lemma_reshuffle_check(game.card_source);
}

} // verus!
