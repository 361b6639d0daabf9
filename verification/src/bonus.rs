//! The seven side wagers and what they pay.
//!
//! Each side wager is judged by itself against the round that a game has on record, whatever
//! the variant of the game: it pays its stake times its multiplier where it is placed and its
//! condition holds, and nothing otherwise.

use vstd::prelude::*;
use crate::game::BaccaratGame;
use crate::state::{WINNER_BANKER, WINNER_PLAYER};
use crate::text::same_text;

verus! {

/// The seven side wagers.
#[derive(Debug, Clone, Copy, PartialEq, Eq, Structural)]
pub enum BonusKind {
    PlayerPair,
    BankerPair,
    EitherPair,
    PerfectPair,
    PlayerDragon,
    BankerDragon,
    Lucky6,
}

/// The side wager that a name stands for.
pub open spec fn bonus_kind_named(name: Seq<char>) -> Option<BonusKind> {
    if name == "player_pair"@ {
        Some(BonusKind::PlayerPair)
    } else if name == "banker_pair"@ {
        Some(BonusKind::BankerPair)
    } else if name == "either_pair"@ {
        Some(BonusKind::EitherPair)
    } else if name == "perfect_pair"@ {
        Some(BonusKind::PerfectPair)
    } else if name == "player_dragon"@ {
        Some(BonusKind::PlayerDragon)
    } else if name == "banker_dragon"@ {
        Some(BonusKind::BankerDragon)
    } else if name == "lucky_6"@ {
        Some(BonusKind::Lucky6)
    } else {
        None
    }
}

impl BonusKind {
    /// The name of the side wager.
    pub open spec fn spec_name(self) -> Seq<char> {
        match self {
            BonusKind::PlayerPair => "player_pair"@,
            BonusKind::BankerPair => "banker_pair"@,
            BonusKind::EitherPair => "either_pair"@,
            BonusKind::PerfectPair => "perfect_pair"@,
            BonusKind::PlayerDragon => "player_dragon"@,
            BonusKind::BankerDragon => "banker_dragon"@,
            BonusKind::Lucky6 => "lucky_6"@,
        }
    }

    /// The condition of the side wager: a pair in the player's hand, in the banker's, in
    /// either, a pair of one suit in either, a win of the player, a win of the banker, and a
    /// win of the banker with a score of 6.
    pub open spec fn condition(self, game: &BaccaratGame) -> bool {
        match self {
            BonusKind::PlayerPair => game.spec_is_player_pair(),
            BonusKind::BankerPair => game.spec_is_banker_pair(),
            BonusKind::EitherPair => game.spec_is_either_pair(),
            BonusKind::PerfectPair => game.spec_is_perfect_pair(),
            BonusKind::PlayerDragon => game.state.winner == WINNER_PLAYER,
            BonusKind::BankerDragon => game.state.winner == WINNER_BANKER,
            BonusKind::Lucky6 => game.state.winner == WINNER_BANKER && game.state.banker_score
                == 6,
        }
    }

    /// What the side wager pays per unit of stake where its condition holds: 11 for a pair
    /// in one hand, 5 for a pair in either, 25 for a pair of one suit, for a dragon what the
    /// margin of the win gives, and for the banker's 6 twenty with three cards and twelve
    /// with two.
    pub open spec fn multiplier(self, game: &BaccaratGame) -> int {
        match self {
            BonusKind::PlayerPair => 11,
            BonusKind::BankerPair => 11,
            BonusKind::EitherPair => 5,
            BonusKind::PerfectPair => 25,
            BonusKind::PlayerDragon => dragon_multiplier(game.spec_victory_margin()),
            BonusKind::BankerDragon => dragon_multiplier(game.spec_victory_margin()),
            BonusKind::Lucky6 => if game.banker_hand@.len() == 3 {
                20
            } else {
                12
            },
        }
    }

    /// The name of the side wager.
    pub fn name(&self) -> (name: &'static str)
        ensures
            name@ == self.spec_name(),
    {
        match self {
            BonusKind::PlayerPair => "player_pair",
            BonusKind::BankerPair => "banker_pair",
            BonusKind::EitherPair => "either_pair",
            BonusKind::PerfectPair => "perfect_pair",
            BonusKind::PlayerDragon => "player_dragon",
            BonusKind::BankerDragon => "banker_dragon",
            BonusKind::Lucky6 => "lucky_6",
        }
    }

    /// The side wager that a name stands for, if it is one.
    pub fn from_name(name: &str) -> (kind: Option<BonusKind>)
        ensures
            kind == bonus_kind_named(name@),
    {
        if same_text(name, "player_pair") {
            Some(BonusKind::PlayerPair)
        } else if same_text(name, "banker_pair") {
            Some(BonusKind::BankerPair)
        } else if same_text(name, "either_pair") {
            Some(BonusKind::EitherPair)
        } else if same_text(name, "perfect_pair") {
            Some(BonusKind::PerfectPair)
        } else if same_text(name, "player_dragon") {
            Some(BonusKind::PlayerDragon)
        } else if same_text(name, "banker_dragon") {
            Some(BonusKind::BankerDragon)
        } else if same_text(name, "lucky_6") {
            Some(BonusKind::Lucky6)
        } else {
            None
        }
    }
}

/// What one side wager pays: the stake times the multiplier where the wager is placed and its
/// condition holds, and nothing otherwise.
pub open spec fn side_payout(stake: u8, condition: bool, multiplier: int) -> int {
    if stake > 0 && condition {
        stake * multiplier
    } else {
        0
    }
}

/// What a dragon wager pays per unit of stake on the side that won, by the margin of the win.
pub open spec fn dragon_multiplier(margin: int) -> int {
    if margin == 9 {
        30
    } else if margin == 8 {
        10
    } else if margin == 7 {
        6
    } else if margin == 6 {
        4
    } else if margin == 5 {
        2
    } else if margin == 4 {
        1
    } else {
        0
    }
}

/// The stake with which a side wager is placed when it is switched on.
pub const TOGGLE_STAKE: u8 = 5;

/// The stake of a side wager after it has been switched.
fn switched(stake: u8) -> (after: u8)
    ensures
        after == if stake > 0 {
            0
        } else {
            TOGGLE_STAKE
        },
{
    if stake > 0 {
        0
    } else {
        TOGGLE_STAKE
    }
}

/// What one side wager pays.
fn side_pays(stake: u8, condition: bool, multiplier: i32) -> (payout: i32)
    requires
        0 <= multiplier <= 30,
    ensures
        payout == side_payout(stake, condition, multiplier as int),
        0 <= payout <= 255 * multiplier,
{
    if stake > 0 && condition {
        assert(0 <= stake * multiplier <= 255 * multiplier) by (nonlinear_arith)
            requires
                0 <= stake <= 255,
                0 <= multiplier,
        ;
        (stake as i32) * multiplier
    } else {
        0
    }
}

/// What a dragon wager pays per unit of stake on the side that won, by the margin of the win:
/// 30 for a margin of 9, then 10, 6, 4, 2, and 1 for a margin of 4; nothing below that.
pub fn dragon_ratio(margin: u8) -> (ratio: i32)
    ensures
        ratio == dragon_multiplier(margin as int),
        0 <= ratio <= 30,
{
    match margin {
        9 => 30,
        8 => 10,
        7 => 6,
        6 => 4,
        5 => 2,
        4 => 1,
        _ => 0,
    }
}

/// The stakes of the seven side wagers. A stake of zero means that the wager is not placed.
#[derive(Debug, Clone, Copy, PartialEq, Eq, Structural)]
pub struct BonusBets {
    pub player_pair: u8,
    pub banker_pair: u8,
    pub either_pair: u8,
    pub perfect_pair: u8,
    pub player_dragon: u8,
    pub banker_dragon: u8,
    pub lucky_6: u8,
}

/// The stakes of a bettor who places no side wager.
pub open spec fn no_bets() -> BonusBets {
    BonusBets {
        player_pair: 0,
        banker_pair: 0,
        either_pair: 0,
        perfect_pair: 0,
        player_dragon: 0,
        banker_dragon: 0,
        lucky_6: 0,
    }
}

impl BonusBets {
    /// The stake of one side wager.
    pub open spec fn stake(self, kind: BonusKind) -> u8 {
        match kind {
            BonusKind::PlayerPair => self.player_pair,
            BonusKind::BankerPair => self.banker_pair,
            BonusKind::EitherPair => self.either_pair,
            BonusKind::PerfectPair => self.perfect_pair,
            BonusKind::PlayerDragon => self.player_dragon,
            BonusKind::BankerDragon => self.banker_dragon,
            BonusKind::Lucky6 => self.lucky_6,
        }
    }

    /// The stakes after the stake of one side wager has been set.
    pub open spec fn with_stake(self, kind: BonusKind, amount: u8) -> BonusBets {
        match kind {
            BonusKind::PlayerPair => BonusBets { player_pair: amount, ..self },
            BonusKind::BankerPair => BonusBets { banker_pair: amount, ..self },
            BonusKind::EitherPair => BonusBets { either_pair: amount, ..self },
            BonusKind::PerfectPair => BonusBets { perfect_pair: amount, ..self },
            BonusKind::PlayerDragon => BonusBets { player_dragon: amount, ..self },
            BonusKind::BankerDragon => BonusBets { banker_dragon: amount, ..self },
            BonusKind::Lucky6 => BonusBets { lucky_6: amount, ..self },
        }
    }

    /// The stakes with every side wager but one taken away.
    pub open spec fn only(self, kind: BonusKind) -> BonusBets {
        no_bets().with_stake(kind, self.stake(kind))
    }

    /// The sum of the seven stakes.
    pub open spec fn total(self) -> int {
        self.player_pair + self.banker_pair + self.either_pair + self.perfect_pair
            + self.player_dragon + self.banker_dragon + self.lucky_6
    }

    /// What one side wager pays on the round that the game has on record.
    pub open spec fn payout_of(self, kind: BonusKind, game: &BaccaratGame) -> int {
        side_payout(self.stake(kind), kind.condition(game), kind.multiplier(game))
    }

    /// Whether a side wager is placed and pays on the round that the game has on record.
    pub open spec fn spec_is_hit(self, kind: BonusKind, game: &BaccaratGame) -> bool {
        self.stake(kind) > 0 && kind.condition(game) && kind.multiplier(game) > 0
    }

    /// What the seven side wagers pay together.
    pub open spec fn payout(self, game: &BaccaratGame) -> int {
        self.payout_of(BonusKind::PlayerPair, game) + self.payout_of(BonusKind::BankerPair, game)
            + self.payout_of(BonusKind::EitherPair, game) + self.payout_of(
            BonusKind::PerfectPair,
            game,
        ) + self.payout_of(BonusKind::PlayerDragon, game) + self.payout_of(
            BonusKind::BankerDragon,
            game,
        ) + self.payout_of(BonusKind::Lucky6, game)
    }

    /// No side wager placed.
    pub fn new() -> (bets: Self)
        ensures
            bets == no_bets(),
    {
        Self {
            player_pair: 0,
            banker_pair: 0,
            either_pair: 0,
            perfect_pair: 0,
            player_dragon: 0,
            banker_dragon: 0,
            lucky_6: 0,
        }
    }

    /// What the seven side wagers pay together on the round that the game has on record. Each
    /// wager is judged by itself; one that is not placed pays nothing.
    pub fn calculate_payouts(&self, game: &BaccaratGame) -> (total: i32)
        ensures
            total == self.payout(game),
            0 <= total <= 255 * 132,
    {
        let player_pair: i32 = side_pays(self.player_pair, game.is_player_pair(), 11);
        let banker_pair: i32 = side_pays(self.banker_pair, game.is_banker_pair(), 11);
        let either_pair: i32 = side_pays(self.either_pair, game.is_either_pair(), 5);
        let perfect_pair: i32 = side_pays(self.perfect_pair, game.is_perfect_pair(), 25);
        let dragon: i32 = dragon_ratio(game.victory_margin());
        let player_dragon: i32 = side_pays(
            self.player_dragon,
            game.state.winner == WINNER_PLAYER,
            dragon,
        );
        let banker_dragon: i32 = side_pays(
            self.banker_dragon,
            game.state.winner == WINNER_BANKER,
            dragon,
        );
        let lucky_ratio: i32 = if game.banker_hand.len() == 3 {
            20
        } else {
            12
        };
        let lucky_6: i32 = side_pays(
            self.lucky_6,
            game.state.winner == WINNER_BANKER && game.state.banker_score == 6,
            lucky_ratio,
        );
        player_pair + banker_pair + either_pair + perfect_pair + player_dragon + banker_dragon
            + lucky_6
    }

    /// Whether a side wager is placed and pays on the round that the game has on record.
    pub fn is_hit(&self, kind: BonusKind, game: &BaccaratGame) -> (hit: bool)
        ensures
            hit == self.spec_is_hit(kind, game),
            hit == (self.payout_of(kind, game) > 0),
    {
        proof {
            let stake: int = self.stake(kind) as int;
            let multiplier: int = kind.multiplier(game);
            assert(stake > 0 && multiplier > 0 ==> stake * multiplier > 0) by (nonlinear_arith);
            assert(stake * 0 == 0);
        }
        match kind {
            BonusKind::PlayerPair => self.player_pair > 0 && game.is_player_pair(),
            BonusKind::BankerPair => self.banker_pair > 0 && game.is_banker_pair(),
            BonusKind::EitherPair => self.either_pair > 0 && game.is_either_pair(),
            BonusKind::PerfectPair => self.perfect_pair > 0 && game.is_perfect_pair(),
            BonusKind::PlayerDragon => self.player_dragon > 0 && game.state.winner
                == WINNER_PLAYER && dragon_ratio(game.victory_margin()) > 0,
            BonusKind::BankerDragon => self.banker_dragon > 0 && game.state.winner
                == WINNER_BANKER && dragon_ratio(game.victory_margin()) > 0,
            BonusKind::Lucky6 => self.lucky_6 > 0 && game.state.winner == WINNER_BANKER
                && game.state.banker_score == 6,
        }
    }

    /// The stakes after one side wager has been switched: taken away where it was placed, and
    /// placed with a stake of [`TOGGLE_STAKE`] where it was not.
    pub open spec fn toggled(self, kind: BonusKind) -> BonusBets {
        self.with_stake(
            kind,
            if self.stake(kind) > 0 {
                0
            } else {
                TOGGLE_STAKE
            },
        )
    }

    /// Switches one side wager: takes it away where it is placed, and places it with a stake
    /// of [`TOGGLE_STAKE`] where it is not.
    pub fn toggle(&mut self, kind: BonusKind)
        ensures
            *final(self) == old(self).toggled(kind),
    {
        match kind {
            BonusKind::PlayerPair => self.player_pair = switched(self.player_pair),
            BonusKind::BankerPair => self.banker_pair = switched(self.banker_pair),
            BonusKind::EitherPair => self.either_pair = switched(self.either_pair),
            BonusKind::PerfectPair => self.perfect_pair = switched(self.perfect_pair),
            BonusKind::PlayerDragon => self.player_dragon = switched(self.player_dragon),
            BonusKind::BankerDragon => self.banker_dragon = switched(self.banker_dragon),
            BonusKind::Lucky6 => self.lucky_6 = switched(self.lucky_6),
        }
    }

    /// The sum of the seven stakes.
    pub fn total_bet(&self) -> (total: i32)
        ensures
            total == self.total(),
            0 <= total <= 7 * 255,
    {
        self.player_pair as i32 + self.banker_pair as i32 + self.either_pair as i32
            + self.perfect_pair as i32 + self.player_dragon as i32 + self.banker_dragon as i32
            + self.lucky_6 as i32
    }
}

/// The side wagers never pay more than thirty times what is staked on them, nor less than
/// nothing.
pub proof fn lemma_bonus_payout_bounds(bets: BonusBets, game: &BaccaratGame)
    ensures
        0 <= bets.payout(game) <= 30 * bets.total(),
{
    assert forall|kind: BonusKind| 0 <= #[trigger] bets.payout_of(kind, game) <= 30 * bets.stake(
        kind,
    ) by {
        let stake: int = bets.stake(kind) as int;
        let multiplier: int = kind.multiplier(game);
        assert(0 <= stake * multiplier <= 30 * stake) by (nonlinear_arith)
            requires
                0 <= stake,
                0 <= multiplier <= 30,
        ;
    }
}

/// The side wagers pay independently of each other: what the seven pay together is the sum of
/// what each of them pays where it is the only one placed, and that is its stake times its
/// multiplier where it is placed and its condition holds, and nothing otherwise.
pub proof fn lemma_bonus_payout_additive(bets: BonusBets, game: &BaccaratGame)
    ensures
        bets.payout(game) == bets.only(BonusKind::PlayerPair).payout(game) + bets.only(
            BonusKind::BankerPair,
        ).payout(game) + bets.only(BonusKind::EitherPair).payout(game) + bets.only(
            BonusKind::PerfectPair,
        ).payout(game) + bets.only(BonusKind::PlayerDragon).payout(game) + bets.only(
            BonusKind::BankerDragon,
        ).payout(game) + bets.only(BonusKind::Lucky6).payout(game),
        forall|kind: BonusKind| #[trigger]
            bets.only(kind).payout(game) == bets.payout_of(kind, game),
        forall|kind: BonusKind| #[trigger]
            bets.payout_of(kind, game) == if bets.stake(kind) > 0 && kind.condition(game) {
                bets.stake(kind) * kind.multiplier(game)
            } else {
                0
            },
{
}

/// A side wager that is not placed pays nothing, whatever the round; and placing it or taking
/// it away changes what the side wagers pay together by what it pays itself.
pub proof fn lemma_unplaced_bet_pays_nothing(bets: BonusBets, kind: BonusKind, game: &BaccaratGame)
    ensures
        bets.stake(kind) == 0 ==> bets.payout_of(kind, game) == 0,
        no_bets().payout(game) == 0,
        bets.with_stake(kind, 0).payout(game) == bets.payout(game) - bets.payout_of(kind, game),
{
}

} // verus!
