//! The table session of the windowed front end: as the plain one, with a staged reveal of the
//! cards of a classic round and with the two single-hand pair wagers only.
//!
//! Reading keys, keeping time and drawing the window are left to the program that runs the
//! session.

use vstd::prelude::*;
use crate::animation::{face_down, AnimationState};
use crate::bonus::{bonus_kind_named, lemma_bonus_payout_bounds, BonusBets, BonusKind};
use crate::card::Card;
use crate::game::BaccaratGame;
use crate::mode::GameMode;
use crate::payout::lemma_side_payout_bounds;
use crate::source::{standard_deck, Randomness};
use crate::state::{WINNER_BANKER, WINNER_PLAYER, WINNER_TIE};
use crate::ui::{check_totals_room, key_stake, stake_of_key, totals_have_room, BetType, Key};

verus! {

/// The statistics of a session.
#[derive(Debug, Clone, Copy, PartialEq, Eq, Structural)]
pub struct GameStats {
    pub rounds_played: u32,
    pub player_wins: u32,
    pub banker_wins: u32,
    pub ties: u32,
    pub total_wagered: i32,
    pub total_won: i32,
}

impl GameStats {
    /// The statistics of a session in which no round has been played.
    pub open spec fn empty() -> Self {
        GameStats {
            rounds_played: 0,
            player_wins: 0,
            banker_wins: 0,
            ties: 0,
            total_wagered: 0,
            total_won: 0,
        }
    }

    /// The statistics after one more round: one more round played, the stakes and the payout
    /// added, and one more win for the side that won or one more tie.
    pub open spec fn with_round(self, game: &BaccaratGame, staked: int, payout: int) -> Self {
        GameStats {
            rounds_played: (self.rounds_played + 1) as u32,
            player_wins: (self.player_wins + if game.state.winner == WINNER_PLAYER {
                1int
            } else {
                0int
            }) as u32,
            banker_wins: (self.banker_wins + if game.state.winner == WINNER_BANKER {
                1int
            } else {
                0int
            }) as u32,
            ties: (self.ties + if game.state.winner == WINNER_TIE {
                1int
            } else {
                0int
            }) as u32,
            total_wagered: (self.total_wagered + staked) as i32,
            total_won: (self.total_won + payout) as i32,
        }
    }

    /// Whether every counter can count one more.
    pub open spec fn counters_have_room(self) -> bool {
        &&& self.rounds_played < u32::MAX
        &&& self.player_wins < u32::MAX
        &&& self.banker_wins < u32::MAX
        &&& self.ties < u32::MAX
    }

    /// The statistics of a session in which no round has been played.
    pub fn new() -> (stats: Self)
        ensures
            stats == Self::empty(),
    {
        Self {
            rounds_played: 0,
            player_wins: 0,
            banker_wins: 0,
            ties: 0,
            total_wagered: 0,
            total_won: 0,
        }
    }

    /// Whether every counter can count one more.
    pub fn check_counters_room(&self) -> (room: bool)
        ensures
            room == self.counters_have_room(),
    {
        self.rounds_played < u32::MAX && self.player_wins < u32::MAX && self.banker_wins
            < u32::MAX && self.ties < u32::MAX
    }

    /// Counts a round that the game has on record, with what was staked on it and what it
    /// paid.
    pub fn record_round(&mut self, game: &BaccaratGame, staked: i32, payout: i32)
        requires
            old(self).counters_have_room(),
            i32::MIN <= old(self).total_wagered + staked <= i32::MAX,
            i32::MIN <= old(self).total_won + payout <= i32::MAX,
        ensures
            *final(self) == old(self).with_round(game, staked as int, payout as int),
    {
        self.rounds_played += 1;
        self.total_wagered += staked;
        self.total_won += payout;
        if game.state.winner == WINNER_PLAYER {
            self.player_wins += 1;
        } else if game.state.winner == WINNER_BANKER {
            self.banker_wins += 1;
        } else if game.state.winner == WINNER_TIE {
            self.ties += 1;
        }
    }
}

/// A session at the table: the game, the bettor's balance, the wagers for the next round, the
/// variant, the statistics, and the reveal of the cards of the last classic round.
pub struct RatatuiUI {
    pub game: BaccaratGame,
    pub balance: i32,
    pub current_bet: i32,
    pub bet_type: BetType,
    pub bonus_bets: BonusBets,
    pub game_mode: GameMode,
    pub stats: GameStats,
    pub show_stats: bool,
    pub animation_state: AnimationState,
}

impl RatatuiUI {
    /// Whether a round can be played: a main wager is set, and the balance covers it and the
    /// side wagers.
    pub open spec fn spec_can_play(&self) -> bool {
        &&& self.current_bet != 0
        &&& self.current_bet <= self.balance
        &&& self.current_bet + self.bonus_bets.total() <= self.balance
    }

    /// Whether the balance and the statistics can take a round, whatever it comes to.
    pub open spec fn spec_has_room(&self) -> bool {
        &&& self.stats.counters_have_room()
        &&& totals_have_room(
            self.balance,
            self.stats.total_wagered,
            self.stats.total_won,
            self.current_bet,
            self.bonus_bets,
        )
    }

    /// All that is staked on a round.
    pub open spec fn staked(&self) -> int {
        self.current_bet + self.bonus_bets.total()
    }

    /// What the wagers of the session pay on the round that a game has on record.
    pub open spec fn payout_on(&self, game: &BaccaratGame) -> int {
        game.total_payout_of(Some(self.bet_type.selection()), self.current_bet as int)
    }

    /// Whether the session is what `before` becomes by settling the round that its game has on
    /// record: the statistics count the round, the balance has lost the stakes and gained the
    /// payout, and the wagers, the variant and the rest are as they were.
    pub open spec fn is_settled_from(&self, before: &RatatuiUI) -> bool {
        &&& self.balance == before.balance - before.staked() + before.payout_on(&self.game)
        &&& self.stats == before.stats.with_round(
            &self.game,
            before.staked(),
            before.payout_on(&self.game),
        )
        &&& self.current_bet == before.current_bet
        &&& self.bet_type == before.bet_type
        &&& self.bonus_bets == before.bonus_bets
        &&& self.game_mode == before.game_mode
        &&& self.show_stats == before.show_stats
    }

    /// Whether the session is what `before` becomes by playing a round: a new game of the
    /// variant on a fresh deck, with the side wagers of the session, has been played and
    /// settled; in the classic variant the reveal of its cards has started, the player's
    /// before the banker's, and in the others the reveal is as it was.
    pub open spec fn has_played_from(&self, before: &RatatuiUI) -> bool {
        &&& self.game.holds_fresh_round()
        &&& self.game.mode == before.game_mode
        &&& self.game.bonus_bets == before.bonus_bets
        &&& self.is_settled_from(before)
        &&& if before.game_mode == GameMode::Classic {
            &&& self.animation_state.dealing
            &&& self.animation_state.cards_to_reveal@ == face_down(
                self.game.player_hand@ + self.game.banker_hand@,
            )
            &&& self.animation_state.current_reveal_index == 0
        } else {
            self.animation_state == before.animation_state
        }
    }

    /// The side wagers after the key of one of them has been pressed: the pair wagers on the
    /// player's and the banker's hand can be switched, any other name changes nothing.
    pub open spec fn bonus_bets_toggled(bets: BonusBets, name: Seq<char>) -> BonusBets {
        match bonus_kind_named(name) {
            Some(BonusKind::PlayerPair) => bets.toggled(BonusKind::PlayerPair),
            Some(BonusKind::BankerPair) => bets.toggled(BonusKind::BankerPair),
            _ => bets,
        }
    }

    /// A session with a balance of 1000, no wager, a classic game, and no reveal under way.
    pub fn new() -> (ui: Self)
        ensures
            ui.game.is_unplayed(GameMode::Classic),
            ui.game.is_on_shuffled_deck(Randomness::Entropy),
            ui.balance == 1000,
            ui.current_bet == 0,
            ui.bet_type == BetType::Player,
            ui.bonus_bets == crate::bonus::no_bets(),
            ui.game_mode == GameMode::Classic,
            ui.stats == GameStats::empty(),
            !ui.show_stats,
            !ui.animation_state.dealing,
            ui.animation_state.cards_to_reveal@.len() == 0,
            ui.animation_state.current_reveal_index == 0,
    {
        Self {
            game: BaccaratGame::new(),
            balance: 1000,
            current_bet: 0,
            bet_type: BetType::Player,
            bonus_bets: BonusBets::new(),
            game_mode: GameMode::Classic,
            stats: GameStats::new(),
            show_stats: false,
            animation_state: AnimationState::new(),
        }
    }

    /// Whether a round can be played.
    pub fn can_play(&self) -> (can: bool)
        ensures
            can == self.spec_can_play(),
    {
        self.current_bet != 0 && self.current_bet <= self.balance && self.current_bet as i64
            + self.bonus_bets.total_bet() as i64 <= self.balance as i64
    }

    /// Whether the balance and the statistics can take a round, whatever it comes to.
    pub fn has_room(&self) -> (room: bool)
        ensures
            room == self.spec_has_room(),
    {
        self.stats.check_counters_room() && check_totals_room(
            self.balance,
            self.stats.total_wagered,
            self.stats.total_won,
            self.current_bet,
            &self.bonus_bets,
        )
    }

    /// Goes on to the next variant, with a new game of that variant on a fresh deck.
    pub fn cycle_game_mode(&mut self)
        ensures
            final(self).game_mode == old(self).game_mode.spec_next(),
            final(self).game.is_unplayed(final(self).game_mode),
            final(self).game.is_on_shuffled_deck(Randomness::Entropy),
            final(self).balance == old(self).balance,
            final(self).current_bet == old(self).current_bet,
            final(self).bet_type == old(self).bet_type,
            final(self).bonus_bets == old(self).bonus_bets,
            final(self).stats == old(self).stats,
            final(self).show_stats == old(self).show_stats,
            final(self).animation_state == old(self).animation_state,
    {
        self.game_mode = self.game_mode.next();
        self.game = BaccaratGame::with_mode(self.game_mode);
    }

    /// Switches the side wager of the given name, if it is the pair wager on the player's or
    /// on the banker's hand.
    pub fn toggle_bonus_bet(&mut self, bet_type: &str)
        ensures
            final(self).bonus_bets == Self::bonus_bets_toggled(old(self).bonus_bets, bet_type@),
            final(self).game == old(self).game,
            final(self).balance == old(self).balance,
            final(self).current_bet == old(self).current_bet,
            final(self).bet_type == old(self).bet_type,
            final(self).game_mode == old(self).game_mode,
            final(self).stats == old(self).stats,
            final(self).show_stats == old(self).show_stats,
            final(self).animation_state == old(self).animation_state,
    {
        match BonusKind::from_name(bet_type) {
            Some(BonusKind::PlayerPair) => self.bonus_bets.toggle(BonusKind::PlayerPair),
            Some(BonusKind::BankerPair) => self.bonus_bets.toggle(BonusKind::BankerPair),
            _ => {},
        }
    }

    /// Settles the round that the game of the session has on record: the statistics count it,
    /// and the balance loses the stakes and gains what the round pays.
    pub fn settle(&mut self)
        requires
            old(self).spec_has_room(),
            old(self).game.bonus_bets == old(self).bonus_bets,
        ensures
            final(self).is_settled_from(old(self)),
            final(self).game == old(self).game,
            final(self).animation_state == old(self).animation_state,
    {
        proof {
            lemma_side_payout_bounds(
                self.game,
                self.bet_type.selection(),
                self.current_bet as int,
            );
            lemma_bonus_payout_bounds(self.bonus_bets, &self.game);
        }
        let total_bet: i32 = self.current_bet + self.bonus_bets.total_bet();
        let payout: i32 = self.game.total_payout(self.bet_type.name(), self.current_bet);
        self.stats.record_round(&self.game, total_bet, payout);
        self.balance = self.balance - total_bet + payout;
    }

    /// The cards of the round on record in the order of their reveal: the player's hand, then
    /// the banker's.
    fn cards_on_show(&self) -> (cards: Vec<Card>)
        ensures
            cards@ == self.game.player_hand@ + self.game.banker_hand@,
    {
        let mut cards: Vec<Card> = Vec::new();
        let mut i: usize = 0;
        while i < self.game.player_hand.len()
            invariant
                i <= self.game.player_hand@.len(),
                cards@ == self.game.player_hand@.take(i as int),
            decreases self.game.player_hand@.len() - i,
        {
            cards.push(self.game.player_hand[i]);
            proof {
                assert(self.game.player_hand@.take(i + 1) =~= self.game.player_hand@.take(
                    i as int,
                ).push(self.game.player_hand@[i as int]));
            }
            i += 1;
        }
        proof {
            assert(self.game.player_hand@.take(i as int) =~= self.game.player_hand@);
        }
        let mut j: usize = 0;
        while j < self.game.banker_hand.len()
            invariant
                j <= self.game.banker_hand@.len(),
                cards@ == self.game.player_hand@ + self.game.banker_hand@.take(j as int),
            decreases self.game.banker_hand@.len() - j,
        {
            cards.push(self.game.banker_hand[j]);
            proof {
                assert(self.game.player_hand@ + self.game.banker_hand@.take(j + 1) =~= (
                self.game.player_hand@ + self.game.banker_hand@.take(j as int)).push(
                    self.game.banker_hand@[j as int],
                ));
            }
            j += 1;
        }
        proof {
            assert(self.game.banker_hand@.take(j as int) =~= self.game.banker_hand@);
        }
        cards
    }

    /// Plays a round, if one can be played: a new game of the session's variant on a fresh
    /// deck, with the session's side wagers, is played and settled, and in the classic
    /// variant the reveal of its cards starts. Otherwise nothing changes.
    pub fn play_round(&mut self)
        requires
            old(self).spec_can_play() ==> old(self).spec_has_room(),
        ensures
            !old(self).spec_can_play() ==> *final(self) == *old(self),
            old(self).spec_can_play() ==> final(self).has_played_from(old(self)),
    {
        if !self.can_play() {
            return ;
        }
        self.game = BaccaratGame::with_mode(self.game_mode);
        self.game.set_bonus_bets(self.bonus_bets);
        let ghost deck = self.game.card_source.cards();
        self.game.play_round();
        proof {
            assert(deck.to_multiset() == standard_deck().to_multiset() && self.game.holds_round_of(
                deck,
            ));
        }
        if self.game_mode == GameMode::Classic {
            let all_cards = self.cards_on_show();
            self.animation_state.start_dealing(all_cards);
        }
        self.settle();
    }

    /// What a key does to the session. `q` and escape ask to leave, and the result says so;
    /// `p`, `b` and `t` choose the main wager; `1` to `5` set its stake; the space bar plays a
    /// round unless a reveal is under way; `m` goes on to the next variant; `s` shows or
    /// hides the statistics; the first two function keys switch the pair wagers on the
    /// player's and the banker's hand. Any other key does nothing.
    pub fn handle_key(&mut self, key: Key) -> (quit: bool)
        requires
            key == Key::Char(' ') && !old(self).animation_state.dealing && old(self).spec_can_play()
                ==> old(self).spec_has_room(),
        ensures
            quit == (key == Key::Char('q') || key == Key::Esc),
            match key {
                Key::Char(c) => if c == 'p' {
                    *final(self) == (RatatuiUI { bet_type: BetType::Player, ..*old(self) })
                } else if c == 'b' {
                    *final(self) == (RatatuiUI { bet_type: BetType::Banker, ..*old(self) })
                } else if c == 't' {
                    *final(self) == (RatatuiUI { bet_type: BetType::Tie, ..*old(self) })
                } else if c == ' ' {
                    if !old(self).animation_state.dealing && old(self).spec_can_play() {
                        final(self).has_played_from(old(self))
                    } else {
                        *final(self) == *old(self)
                    }
                } else if stake_of_key(c) is Some {
                    *final(self) == (RatatuiUI { current_bet: stake_of_key(c)->0, ..*old(self) })
                } else if c == 'm' {
                    &&& final(self).game_mode == old(self).game_mode.spec_next()
                    &&& final(self).game.is_unplayed(final(self).game_mode)
                    &&& final(self).game.is_on_shuffled_deck(Randomness::Entropy)
                    &&& *final(self) == (RatatuiUI {
                        game: final(self).game,
                        game_mode: final(self).game_mode,
                        ..*old(self)
                    })
                } else if c == 's' {
                    *final(self) == (RatatuiUI { show_stats: !old(self).show_stats, ..*old(self) })
                } else {
                    *final(self) == *old(self)
                },
                Key::F(n) => if n == 1 {
                    *final(self) == (RatatuiUI {
                        bonus_bets: old(self).bonus_bets.toggled(BonusKind::PlayerPair),
                        ..*old(self)
                    })
                } else if n == 2 {
                    *final(self) == (RatatuiUI {
                        bonus_bets: old(self).bonus_bets.toggled(BonusKind::BankerPair),
                        ..*old(self)
                    })
                } else {
                    *final(self) == *old(self)
                },
                _ => *final(self) == *old(self),
            },
    {
        match key {
            Key::Esc => {
                return true;
            },
            Key::Char(c) => {
                if c == 'q' {
                    return true;
                } else if c == 'p' {
                    self.bet_type = BetType::Player;
                } else if c == 'b' {
                    self.bet_type = BetType::Banker;
                } else if c == 't' {
                    self.bet_type = BetType::Tie;
                } else if c == ' ' {
                    if self.animation_state.is_complete() {
                        self.play_round();
                    }
                } else if c == 'm' {
                    self.cycle_game_mode();
                } else if c == 's' {
                    self.show_stats = !self.show_stats;
                } else {
                    match key_stake(c) {
                        Some(stake) => {
                            self.current_bet = stake;
                        },
                        None => {},
                    }
                }
            },
            Key::F(n) => {
                if n == 1 {
                    self.bonus_bets.toggle(BonusKind::PlayerPair);
                } else if n == 2 {
                    self.bonus_bets.toggle(BonusKind::BankerPair);
                }
            },
            Key::Other => {},
        }
        false
    }
}

} // verus!
