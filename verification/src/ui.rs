//! The table session of the plain front end: the bettor's balance and wagers, the game, the
//! running statistics, and what each key does to them.
//!
//! Reading keys and drawing the screen are left to the program that runs the session.

use vstd::prelude::*;
use crate::bonus::{bonus_kind_named, lemma_bonus_payout_bounds, BonusBets, BonusKind};
use crate::card::Card;
use crate::card_renderer::{rank_text, suit_text, CardRenderer};
use crate::game::BaccaratGame;
use crate::mode::GameMode;
use crate::payout::{lemma_side_payout_bounds, selection_named, Selection};
use crate::source::{standard_deck, Randomness};
use crate::state::{WINNER_BANKER, WINNER_PLAYER, WINNER_TIE};
use crate::text::{decimal, decimal_text};
use vstd::string::StringExecFns;

verus! {

/// What the main wager of a session is placed on.
#[derive(Debug, Clone, Copy, PartialEq, Eq, Structural)]
pub enum BetType {
    Player,
    Banker,
    Tie,
}

impl BetType {
    /// The selection of the payout tables that the wager is placed on.
    pub open spec fn selection(self) -> Selection {
        match self {
            BetType::Player => Selection::Player,
            BetType::Banker => Selection::Banker,
            BetType::Tie => Selection::Tie,
        }
    }

    /// The name under which the payout tables know the selection.
    pub fn name(&self) -> (name: &'static str)
        ensures
            selection_named(name@) == Some(self.selection()),
    {
        proof {
            reveal_strlit("player");
            reveal_strlit("banker");
            reveal_strlit("tie");
            assert("banker"@[0] != "player"@[0]);
        }
        match self {
            BetType::Player => "player",
            BetType::Banker => "banker",
            BetType::Tie => "tie",
        }
    }
}

/// A key as the session sees it: a character, a function key by its number, escape, or any
/// other.
#[derive(Debug, Clone, Copy, PartialEq, Eq, Structural)]
pub enum Key {
    Char(char),
    F(u8),
    Esc,
    Other,
}

/// A card in a line of text: the rank as a letter for the ace and the faces and as a number
/// otherwise, then the symbol of the suit.
pub open spec fn card_label(card: Card) -> Seq<char> {
    if card.rank == 1 || 11 <= card.rank <= 13 {
        rank_text(card.rank) + suit_text(card.suit)
    } else {
        decimal_text(card.rank) + suit_text(card.suit)
    }
}

/// The stake that a digit key sets: 10, 50, 100, 500 and 1000 for `1` to `5`.
pub open spec fn stake_of_key(key: char) -> Option<i32> {
    if key == '1' {
        Some(10i32)
    } else if key == '2' {
        Some(50i32)
    } else if key == '3' {
        Some(100i32)
    } else if key == '4' {
        Some(500i32)
    } else if key == '5' {
        Some(1000i32)
    } else {
        None
    }
}

/// The stake that a digit key sets.
pub fn key_stake(key: char) -> (stake: Option<i32>)
    ensures
        stake == stake_of_key(key),
{
    if key == '1' {
        Some(10)
    } else if key == '2' {
        Some(50)
    } else if key == '3' {
        Some(100)
    } else if key == '4' {
        Some(500)
    } else if key == '5' {
        Some(1000)
    } else {
        None
    }
}

/// The least that a main wager on the player, the banker or a tie pays.
pub open spec fn lowest_payout(stake: int) -> int {
    if stake < 0 {
        9 * stake
    } else {
        0
    }
}

/// The most that a main wager on the player, the banker or a tie and the side wagers pay
/// together.
pub open spec fn highest_payout(stake: int, bets: BonusBets) -> int {
    30 * bets.total() + if stake > 0 {
        9 * stake
    } else {
        0
    }
}

/// Whether a balance and two running totals can take the stakes and whatever the round pays.
pub open spec fn totals_have_room(
    balance: i32,
    wagered: i32,
    won: i32,
    stake: i32,
    bets: BonusBets,
) -> bool {
    let staked: int = stake + bets.total();
    let low: int = lowest_payout(stake as int);
    let high: int = highest_payout(stake as int, bets);
    &&& i32::MIN <= low
    &&& high <= i32::MAX
    &&& i32::MIN <= staked <= i32::MAX
    &&& i32::MIN <= wagered + staked <= i32::MAX
    &&& i32::MIN <= won + low
    &&& won + high <= i32::MAX
    &&& i32::MIN <= balance - staked + low
    &&& balance - staked + high <= i32::MAX
}

/// Whether a balance and two running totals can take the stakes and whatever the round pays.
pub fn check_totals_room(
    balance: i32,
    wagered: i32,
    won: i32,
    stake: i32,
    bets: &BonusBets,
) -> (room: bool)
    ensures
        room == totals_have_room(balance, wagered, won, stake, *bets),
{
    let side: i64 = bets.total_bet() as i64;
    let staked: i64 = stake as i64 + side;
    let low: i64 = if stake < 0 {
        9 * (stake as i64)
    } else {
        0
    };
    let high: i64 = 30 * side + if stake > 0 {
        9 * (stake as i64)
    } else {
        0
    };
    let least: i64 = i32::MIN as i64;
    let most: i64 = i32::MAX as i64;
    least <= low && high <= most && least <= staked && staked <= most && least <= wagered as i64
        + staked && wagered as i64 + staked <= most && least <= won as i64 + low && won as i64
        + high <= most && least <= balance as i64 - staked + low && balance as i64 - staked + high
        <= most
}

/// Whether a round on record counts as won by a natural: one of the scores is 8 or 9, and
/// one of the hands has two cards.
pub open spec fn is_natural_win(game: &BaccaratGame) -> bool {
    (game.state.player_score >= 8 || game.state.banker_score >= 8) && (game.player_hand@.len()
        == 2 || game.banker_hand@.len() == 2)
}

/// The statistics of a session.
#[derive(Debug, Clone, Copy, PartialEq, Eq, Structural)]
pub struct GameStatistics {
    pub rounds_played: u32,
    pub player_wins: u32,
    pub banker_wins: u32,
    pub ties: u32,
    pub total_wagered: i32,
    pub total_won: i32,
    pub natural_wins: u32,
    pub pair_hits: u32,
}

impl GameStatistics {
    /// The statistics after one more round: one more round played, the stakes and the payout
    /// added, one more win for the side that won or one more tie, one more natural where the
    /// round was one, and one more pair hit where a hand opened with a pair.
    pub open spec fn with_round(self, game: &BaccaratGame, staked: int, payout: int) -> Self {
        GameStatistics {
            rounds_played: (self.rounds_played + 1) as u32,
            player_wins: (self.player_wins + if game.state.winner == WINNER_PLAYER {
                1int
            } else {
                0int
            }) as u32,
            banker_wins: (self.banker_wins + if game.state.winner == WINNER_BANKER {
                1int
            } else {
                0int
            }) as u32,
            ties: (self.ties + if game.state.winner == WINNER_TIE {
                1int
            } else {
                0int
            }) as u32,
            total_wagered: (self.total_wagered + staked) as i32,
            total_won: (self.total_won + payout) as i32,
            natural_wins: (self.natural_wins + if is_natural_win(game) {
                1int
            } else {
                0int
            }) as u32,
            pair_hits: (self.pair_hits + if game.spec_is_either_pair() {
                1int
            } else {
                0int
            }) as u32,
        }
    }

    /// Whether every counter can count one more.
    pub open spec fn counters_have_room(self) -> bool {
        &&& self.rounds_played < u32::MAX
        &&& self.player_wins < u32::MAX
        &&& self.banker_wins < u32::MAX
        &&& self.ties < u32::MAX
        &&& self.natural_wins < u32::MAX
        &&& self.pair_hits < u32::MAX
    }

    /// The statistics of a session in which no round has been played.
    pub open spec fn empty() -> Self {
        GameStatistics {
            rounds_played: 0,
            player_wins: 0,
            banker_wins: 0,
            ties: 0,
            total_wagered: 0,
            total_won: 0,
            natural_wins: 0,
            pair_hits: 0,
        }
    }

    /// The statistics of a session in which no round has been played.
    pub fn new() -> (stats: Self)
        ensures
            stats == Self::empty(),
    {
        Self {
            rounds_played: 0,
            player_wins: 0,
            banker_wins: 0,
            ties: 0,
            total_wagered: 0,
            total_won: 0,
            natural_wins: 0,
            pair_hits: 0,
        }
    }

    /// Whether every counter can count one more.
    pub fn check_counters_room(&self) -> (room: bool)
        ensures
            room == self.counters_have_room(),
    {
        self.rounds_played < u32::MAX && self.player_wins < u32::MAX && self.banker_wins
            < u32::MAX && self.ties < u32::MAX && self.natural_wins < u32::MAX && self.pair_hits
            < u32::MAX
    }

    /// Counts a round that the game has on record, with what was staked on it and what it
    /// paid.
    pub fn record_round(&mut self, game: &BaccaratGame, staked: i32, payout: i32)
        requires
            old(self).counters_have_room(),
            i32::MIN <= old(self).total_wagered + staked <= i32::MAX,
            i32::MIN <= old(self).total_won + payout <= i32::MAX,
        ensures
            *final(self) == old(self).with_round(game, staked as int, payout as int),
    {
        self.rounds_played += 1;
        self.total_wagered += staked;
        self.total_won += payout;
        if game.state.winner == WINNER_PLAYER {
            self.player_wins += 1;
        } else if game.state.winner == WINNER_BANKER {
            self.banker_wins += 1;
        } else if game.state.winner == WINNER_TIE {
            self.ties += 1;
        }
        if (game.state.player_score >= 8 || game.state.banker_score >= 8) && (
        game.player_hand.len() == 2 || game.banker_hand.len() == 2) {
            self.natural_wins += 1;
        }
        if game.is_player_pair() || game.is_banker_pair() {
            self.pair_hits += 1;
        }
    }
}

/// A session at the table: the game, the bettor's balance, the wagers for the next round, the
/// variant, and the statistics.
pub struct TerminalUI {
    pub game: BaccaratGame,
    pub balance: i32,
    pub current_bet: i32,
    pub bet_type: BetType,
    pub bonus_bets: BonusBets,
    pub game_mode: GameMode,
    pub statistics: GameStatistics,
    pub show_statistics: bool,
}

impl TerminalUI {
    /// Whether a round can be played: a main wager is set, and the balance covers it and the
    /// side wagers.
    pub open spec fn spec_can_play(&self) -> bool {
        &&& self.current_bet != 0
        &&& self.current_bet <= self.balance
        &&& self.current_bet + self.bonus_bets.total() <= self.balance
    }

    /// Whether the balance and the statistics can take a round, whatever it comes to.
    pub open spec fn spec_has_room(&self) -> bool {
        &&& self.statistics.counters_have_room()
        &&& totals_have_room(
            self.balance,
            self.statistics.total_wagered,
            self.statistics.total_won,
            self.current_bet,
            self.bonus_bets,
        )
    }

    /// What the wagers of the session pay on the round that a game has on record.
    pub open spec fn payout_on(&self, game: &BaccaratGame) -> int {
        game.total_payout_of(Some(self.bet_type.selection()), self.current_bet as int)
    }

    /// The session after the round that a game has on record has been settled: the game is
    /// that game, the statistics count the round, and the balance has lost the stakes and
    /// gained the payout.
    pub open spec fn settled_on(&self, game: BaccaratGame) -> TerminalUI {
        TerminalUI {
            game,
            balance: (self.balance - (self.current_bet + self.bonus_bets.total())
                + self.payout_on(&game)) as i32,
            statistics: self.statistics.with_round(
                &game,
                self.current_bet + self.bonus_bets.total(),
                self.payout_on(&game),
            ),
            ..*self
        }
    }

    /// The side wagers after the key of one of them has been pressed: the four pair wagers can
    /// be switched, any other name changes nothing.
    pub open spec fn bonus_bets_toggled(bets: BonusBets, name: Seq<char>) -> BonusBets {
        match bonus_kind_named(name) {
            Some(BonusKind::PlayerPair) => bets.toggled(BonusKind::PlayerPair),
            Some(BonusKind::BankerPair) => bets.toggled(BonusKind::BankerPair),
            Some(BonusKind::EitherPair) => bets.toggled(BonusKind::EitherPair),
            Some(BonusKind::PerfectPair) => bets.toggled(BonusKind::PerfectPair),
            _ => bets,
        }
    }

    /// A session with a balance of 1000, no wager, and a classic game.
    pub fn new() -> (ui: Self)
        ensures
            ui.game.is_unplayed(GameMode::Classic),
            ui.game.is_on_shuffled_deck(Randomness::Entropy),
            ui.balance == 1000,
            ui.current_bet == 0,
            ui.bet_type == BetType::Player,
            ui.bonus_bets == crate::bonus::no_bets(),
            ui.game_mode == GameMode::Classic,
            ui.statistics == GameStatistics::empty(),
            !ui.show_statistics,
    {
        Self {
            game: BaccaratGame::new(),
            balance: 1000,
            current_bet: 0,
            bet_type: BetType::Player,
            bonus_bets: BonusBets::new(),
            game_mode: GameMode::Classic,
            statistics: GameStatistics::new(),
            show_statistics: false,
        }
    }

    /// A card in a line of text.
    pub fn card_display(&self, card: &Card) -> (text: String)
        ensures
            text@ == card_label(*card),
    {
        let mut text = if card.rank == 1 || (11 <= card.rank && card.rank <= 13) {
            String::from_str(CardRenderer::rank_symbol(card.rank))
        } else {
            decimal(card.rank)
        };
        text.append(CardRenderer::suit_symbol(card.suit));
        text
    }

    /// Whether a round can be played.
    pub fn can_play(&self) -> (can: bool)
        ensures
            can == self.spec_can_play(),
    {
        self.current_bet != 0 && self.current_bet <= self.balance && self.current_bet as i64
            + self.bonus_bets.total_bet() as i64 <= self.balance as i64
    }

    /// Whether the balance and the statistics can take a round, whatever it comes to.
    pub fn has_room(&self) -> (room: bool)
        ensures
            room == self.spec_has_room(),
    {
        self.statistics.check_counters_room() && check_totals_room(
            self.balance,
            self.statistics.total_wagered,
            self.statistics.total_won,
            self.current_bet,
            &self.bonus_bets,
        )
    }

    /// Goes on to the next variant, with a new game of that variant on a fresh deck.
    pub fn cycle_game_mode(&mut self)
        ensures
            final(self).game_mode == old(self).game_mode.spec_next(),
            final(self).game.is_unplayed(final(self).game_mode),
            final(self).game.is_on_shuffled_deck(Randomness::Entropy),
            final(self).balance == old(self).balance,
            final(self).current_bet == old(self).current_bet,
            final(self).bet_type == old(self).bet_type,
            final(self).bonus_bets == old(self).bonus_bets,
            final(self).statistics == old(self).statistics,
            final(self).show_statistics == old(self).show_statistics,
    {
        self.game_mode = self.game_mode.next();
        self.game = BaccaratGame::with_mode(self.game_mode);
    }

    /// Switches the side wager of the given name, if it is one of the four pair wagers.
    pub fn toggle_bonus_bet(&mut self, bet_type: &str)
        ensures
            final(self).bonus_bets == Self::bonus_bets_toggled(old(self).bonus_bets, bet_type@),
            final(self).game == old(self).game,
            final(self).balance == old(self).balance,
            final(self).current_bet == old(self).current_bet,
            final(self).bet_type == old(self).bet_type,
            final(self).game_mode == old(self).game_mode,
            final(self).statistics == old(self).statistics,
            final(self).show_statistics == old(self).show_statistics,
    {
        match BonusKind::from_name(bet_type) {
            Some(BonusKind::PlayerPair) => self.bonus_bets.toggle(BonusKind::PlayerPair),
            Some(BonusKind::BankerPair) => self.bonus_bets.toggle(BonusKind::BankerPair),
            Some(BonusKind::EitherPair) => self.bonus_bets.toggle(BonusKind::EitherPair),
            Some(BonusKind::PerfectPair) => self.bonus_bets.toggle(BonusKind::PerfectPair),
            _ => {},
        }
    }

    /// Settles the round that the game of the session has on record: the statistics count it,
    /// and the balance loses the stakes and gains what the round pays.
    pub fn settle(&mut self)
        requires
            old(self).spec_has_room(),
            old(self).game.bonus_bets == old(self).bonus_bets,
        ensures
            *final(self) == old(self).settled_on(old(self).game),
    {
        proof {
            lemma_side_payout_bounds(
                self.game,
                self.bet_type.selection(),
                self.current_bet as int,
            );
            lemma_bonus_payout_bounds(self.bonus_bets, &self.game);
        }
        let total_bet: i32 = self.current_bet + self.bonus_bets.total_bet();
        let payout: i32 = self.game.total_payout(self.bet_type.name(), self.current_bet);
        self.statistics.record_round(&self.game, total_bet, payout);
        self.balance = self.balance - total_bet + payout;
    }

    /// Plays a round, if one can be played: a new game of the session's variant on a fresh
    /// deck, with the session's side wagers, is played and settled. Otherwise nothing
    /// changes.
    pub fn play_round(&mut self)
        requires
            old(self).spec_can_play() ==> old(self).spec_has_room(),
        ensures
            !old(self).spec_can_play() ==> *final(self) == *old(self),
            old(self).spec_can_play() ==> {
                &&& final(self).game.holds_fresh_round()
                &&& final(self).game.mode == old(self).game_mode
                &&& final(self).game.bonus_bets == old(self).bonus_bets
                &&& *final(self) == old(self).settled_on(final(self).game)
            },
    {
        if !self.can_play() {
            return ;
        }
        self.game = BaccaratGame::with_mode(self.game_mode);
        self.game.set_bonus_bets(self.bonus_bets);
        let ghost deck = self.game.card_source.cards();
        self.game.play_round();
        proof {
            assert(deck.to_multiset() == standard_deck().to_multiset() && self.game.holds_round_of(
                deck,
            ));
        }
        self.settle();
    }

    /// What a key does to the session. `q` and escape ask to leave, and the result says so;
    /// `p`, `b` and `t` choose the main wager; `1` to `5` set its stake; the space bar plays a
    /// round; `m` goes on to the next variant; `s` shows or hides the statistics; the first
    /// four function keys switch the pair wagers. Any other key does nothing.
    pub fn handle_key(&mut self, key: Key) -> (quit: bool)
        requires
            key == Key::Char(' ') && old(self).spec_can_play() ==> old(self).spec_has_room(),
        ensures
            quit == (key == Key::Char('q') || key == Key::Esc),
            match key {
                Key::Char(c) => if c == 'p' {
                    *final(self) == (TerminalUI { bet_type: BetType::Player, ..*old(self) })
                } else if c == 'b' {
                    *final(self) == (TerminalUI { bet_type: BetType::Banker, ..*old(self) })
                } else if c == 't' {
                    *final(self) == (TerminalUI { bet_type: BetType::Tie, ..*old(self) })
                } else if c == ' ' {
                    if old(self).spec_can_play() {
                        &&& final(self).game.holds_fresh_round()
                        &&& final(self).game.mode == old(self).game_mode
                        &&& final(self).game.bonus_bets == old(self).bonus_bets
                        &&& *final(self) == old(self).settled_on(final(self).game)
                    } else {
                        *final(self) == *old(self)
                    }
                } else if stake_of_key(c) is Some {
                    *final(self) == (TerminalUI { current_bet: stake_of_key(c)->0, ..*old(self) })
                } else if c == 'm' {
                    &&& final(self).game_mode == old(self).game_mode.spec_next()
                    &&& final(self).game.is_unplayed(final(self).game_mode)
                    &&& final(self).game.is_on_shuffled_deck(Randomness::Entropy)
                    &&& *final(self) == (TerminalUI {
                        game: final(self).game,
                        game_mode: final(self).game_mode,
                        ..*old(self)
                    })
                } else if c == 's' {
                    *final(self) == (TerminalUI {
                        show_statistics: !old(self).show_statistics,
                        ..*old(self)
                    })
                } else {
                    *final(self) == *old(self)
                },
                Key::F(n) => if n == 1 {
                    *final(self) == (TerminalUI {
                        bonus_bets: old(self).bonus_bets.toggled(BonusKind::PlayerPair),
                        ..*old(self)
                    })
                } else if n == 2 {
                    *final(self) == (TerminalUI {
                        bonus_bets: old(self).bonus_bets.toggled(BonusKind::BankerPair),
                        ..*old(self)
                    })
                } else if n == 3 {
                    *final(self) == (TerminalUI {
                        bonus_bets: old(self).bonus_bets.toggled(BonusKind::EitherPair),
                        ..*old(self)
                    })
                } else if n == 4 {
                    *final(self) == (TerminalUI {
                        bonus_bets: old(self).bonus_bets.toggled(BonusKind::PerfectPair),
                        ..*old(self)
                    })
                } else {
                    *final(self) == *old(self)
                },
                _ => *final(self) == *old(self),
            },
    {
        match key {
            Key::Esc => {
                return true;
            },
            Key::Char(c) => {
                if c == 'q' {
                    return true;
                } else if c == 'p' {
                    self.bet_type = BetType::Player;
                } else if c == 'b' {
                    self.bet_type = BetType::Banker;
                } else if c == 't' {
                    self.bet_type = BetType::Tie;
                } else if c == ' ' {
                    self.play_round();
                } else if c == 'm' {
                    self.cycle_game_mode();
                } else if c == 's' {
                    self.show_statistics = !self.show_statistics;
                } else {
                    match key_stake(c) {
                        Some(stake) => {
                            self.current_bet = stake;
                        },
                        None => {},
                    }
                }
            },
            Key::F(n) => {
                if n == 1 {
                    self.bonus_bets.toggle(BonusKind::PlayerPair);
                } else if n == 2 {
                    self.bonus_bets.toggle(BonusKind::BankerPair);
                } else if n == 3 {
                    self.bonus_bets.toggle(BonusKind::EitherPair);
                } else if n == 4 {
                    self.bonus_bets.toggle(BonusKind::PerfectPair);
                }
            },
            Key::Other => {},
        }
        false
    }
}

} // verus!
