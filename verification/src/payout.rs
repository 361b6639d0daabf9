//! What the main wager pays under each of the four variants.
//!
//! A payout is what comes back to the bettor, stake included: a wager that pays 2x returns the
//! stake and as much again. Fractional multipliers are applied to the stake exactly and the
//! result is rounded toward zero.

use vstd::prelude::*;
use crate::game::BaccaratGame;
use crate::mode::GameMode;
use crate::state::{hand_total, WINNER_BANKER, WINNER_PLAYER, WINNER_TIE};
use crate::text::same_text;

verus! {

/// What a main wager can be placed on. `Dragon7` and `Panda8` pay in the EZ variant only.
#[derive(Debug, Clone, Copy, PartialEq, Eq, Structural)]
pub enum Selection {
    Player,
    Banker,
    Tie,
    Dragon7,
    Panda8,
}

/// The selection that a name stands for: `player`, `banker`, `tie`, `dragon7` or `panda8`.
pub open spec fn selection_named(name: Seq<char>) -> Option<Selection> {
    if name == "player"@ {
        Some(Selection::Player)
    } else if name == "banker"@ {
        Some(Selection::Banker)
    } else if name == "tie"@ {
        Some(Selection::Tie)
    } else if name == "dragon7"@ {
        Some(Selection::Dragon7)
    } else if name == "panda8"@ {
        Some(Selection::Panda8)
    } else {
        None
    }
}

/// `stake * numerator / denominator`, rounded toward zero.
pub open spec fn scaled_stake(stake: int, numerator: int, denominator: int) -> int {
    if stake >= 0 {
        (stake * numerator) / denominator
    } else {
        -((-stake * numerator) / denominator)
    }
}

/// The classic table: the player pays 2x, the banker 1.95x, a tie 9x.
pub open spec fn classic_payout_of(winner: u8, selection: Option<Selection>, stake: int) -> int {
    if selection == Some(Selection::Player) && winner == WINNER_PLAYER {
        stake * 2
    } else if selection == Some(Selection::Banker) && winner == WINNER_BANKER {
        scaled_stake(stake, 39, 20)
    } else if selection == Some(Selection::Tie) && winner == WINNER_TIE {
        stake * 9
    } else {
        0
    }
}

/// The table without commission: the player pays 2x, the banker 2x but 1.5x on a winning
/// score of 6, a tie 9x.
pub open spec fn no_commission_payout_of(
    winner: u8,
    banker_score: u8,
    selection: Option<Selection>,
    stake: int,
) -> int {
    if selection == Some(Selection::Player) && winner == WINNER_PLAYER {
        stake * 2
    } else if selection == Some(Selection::Banker) && winner == WINNER_BANKER {
        if banker_score == 6 {
            scaled_stake(stake, 3, 2)
        } else {
            stake * 2
        }
    } else if selection == Some(Selection::Tie) && winner == WINNER_TIE {
        stake * 9
    } else {
        0
    }
}

/// The speed table: the player and the banker pay 2x, a tie 8x.
pub open spec fn speed_payout_of(winner: u8, selection: Option<Selection>, stake: int) -> int {
    if selection == Some(Selection::Player) && winner == WINNER_PLAYER {
        stake * 2
    } else if selection == Some(Selection::Banker) && winner == WINNER_BANKER {
        stake * 2
    } else if selection == Some(Selection::Tie) && winner == WINNER_TIE {
        stake * 8
    } else {
        0
    }
}

impl Selection {
    /// The selection that a name stands for, if it is one.
    pub fn from_name(name: &str) -> (selection: Option<Selection>)
        ensures
            selection == selection_named(name@),
    {
        if same_text(name, "player") {
            Some(Selection::Player)
        } else if same_text(name, "banker") {
            Some(Selection::Banker)
        } else if same_text(name, "tie") {
            Some(Selection::Tie)
        } else if same_text(name, "dragon7") {
            Some(Selection::Dragon7)
        } else if same_text(name, "panda8") {
            Some(Selection::Panda8)
        } else {
            None
        }
    }
}

/// `stake * numerator / denominator`, rounded toward zero.
fn scale_stake(stake: i32, numerator: u8, denominator: u8) -> (scaled: i64)
    requires
        denominator > 0,
    ensures
        scaled == scaled_stake(stake as int, numerator as int, denominator as int),
{
    let wide: i64 = stake as i64;
    let up: i64 = numerator as i64;
    let down: i64 = denominator as i64;
    assert(-0x8000_0000 * 255 <= wide * up <= 0x8000_0000 * 255) by (nonlinear_arith)
        requires
            -0x8000_0000 <= wide <= 0x8000_0000,
            0 <= up <= 255,
    ;
    assert(-0x8000_0000 * 255 <= -wide * up <= 0x8000_0000 * 255) by (nonlinear_arith)
        requires
            -0x8000_0000 <= wide <= 0x8000_0000,
            0 <= up <= 255,
    ;
    if wide >= 0 {
        assert(wide * up >= 0) by (nonlinear_arith)
            requires
                wide >= 0,
                up >= 0,
        ;
        (wide * up) / down
    } else {
        assert(-wide * up >= 0) by (nonlinear_arith)
            requires
                wide < 0,
                up >= 0,
        ;
        -((-wide * up) / down)
    }
}

/// Whether a number fits a signed integer of 32 bits.
pub open spec fn fits_i32(value: int) -> bool {
    i32::MIN <= value <= i32::MAX
}

/// The classic table, for a stake of any size.
fn classic_table(winner: u8, selection: Option<Selection>, stake: i32) -> (payout: i64)
    ensures
        payout == classic_payout_of(winner, selection, stake as int),
{
    match (selection, winner) {
        (Some(Selection::Player), 1) => stake as i64 * 2,
        (Some(Selection::Banker), 2) => scale_stake(stake, 39, 20),
        (Some(Selection::Tie), 3) => stake as i64 * 9,
        _ => 0,
    }
}

/// The table without commission, for a stake of any size.
fn no_commission_table(
    winner: u8,
    banker_score: u8,
    selection: Option<Selection>,
    stake: i32,
) -> (payout: i64)
    ensures
        payout == no_commission_payout_of(winner, banker_score, selection, stake as int),
{
    match (selection, winner) {
        (Some(Selection::Player), 1) => stake as i64 * 2,
        (Some(Selection::Banker), 2) => {
            if banker_score == 6 {
                scale_stake(stake, 3, 2)
            } else {
                stake as i64 * 2
            }
        },
        (Some(Selection::Tie), 3) => stake as i64 * 9,
        _ => 0,
    }
}

/// The speed table, for a stake of any size.
fn speed_table(winner: u8, selection: Option<Selection>, stake: i32) -> (payout: i64)
    ensures
        payout == speed_payout_of(winner, selection, stake as int),
{
    match (selection, winner) {
        (Some(Selection::Player), 1) => stake as i64 * 2,
        (Some(Selection::Banker), 2) => stake as i64 * 2,
        (Some(Selection::Tie), 3) => stake as i64 * 8,
        _ => 0,
    }
}

impl BaccaratGame {
    /// The 7-push of the EZ variant: the banker's hand has three cards, each of point value 0,
    /// and the banker's score on record is 7.
    pub open spec fn spec_is_seven_push(&self) -> bool {
        &&& self.banker_hand@.len() == 3
        &&& self.state.banker_score == 7
        &&& forall|i: int| 0 <= i < 3 ==> (#[trigger] self.banker_hand@[i]).point_value() == 0
    }

    /// The EZ table: the player pays 2x; the banker 2x, but on a 7-push only the stake; a tie
    /// 9x; `Dragon7` 40x where the banker wins with three cards and 7; `Panda8` 25x where the
    /// player wins with three cards and 8.
    pub open spec fn ez_payout_of(&self, selection: Option<Selection>, stake: int) -> int {
        if selection == Some(Selection::Player) && self.state.winner == WINNER_PLAYER {
            stake * 2
        } else if selection == Some(Selection::Banker) && self.state.winner == WINNER_BANKER {
            if self.spec_is_seven_push() {
                stake
            } else {
                stake * 2
            }
        } else if selection == Some(Selection::Tie) && self.state.winner == WINNER_TIE {
            stake * 9
        } else if selection == Some(Selection::Dragon7) && self.spec_is_dragon_7() {
            stake * 40
        } else if selection == Some(Selection::Panda8) && self.spec_is_panda_8() {
            stake * 25
        } else {
            0
        }
    }

    /// What the main wager pays under the variant of the game.
    pub open spec fn main_payout_of(&self, selection: Option<Selection>, stake: int) -> int {
        match self.mode {
            GameMode::Classic => classic_payout_of(self.state.winner, selection, stake),
            GameMode::NoCommission => no_commission_payout_of(
                self.state.winner,
                self.state.banker_score,
                selection,
                stake,
            ),
            GameMode::Speed => speed_payout_of(self.state.winner, selection, stake),
            GameMode::EzBaccarat => self.ez_payout_of(selection, stake),
        }
    }

    /// What the main wager and the side wagers attached to the game pay together.
    pub open spec fn total_payout_of(&self, selection: Option<Selection>, stake: int) -> int {
        self.main_payout_of(selection, stake) + self.bonus_bets.payout(self)
    }

    /// Whether the banker's hand and score make the 7-push of the EZ variant.
    pub fn is_seven_push(&self) -> (push: bool)
        ensures
            push == self.spec_is_seven_push(),
    {
        self.banker_hand.len() == 3 && self.state.banker_score == 7
            && self.banker_hand[0].baccarat_value() == 0 && self.banker_hand[1].baccarat_value()
            == 0 && self.banker_hand[2].baccarat_value() == 0
    }

    /// What a main wager pays under the classic table.
    pub fn classic_payout(&self, bet_type: &str, bet_amount: i32) -> (payout: i32)
        requires
            i32::MIN <= classic_payout_of(
                self.state.winner,
                selection_named(bet_type@),
                bet_amount as int,
            ) <= i32::MAX,
        ensures
            payout == classic_payout_of(
                self.state.winner,
                selection_named(bet_type@),
                bet_amount as int,
            ),
    {
        classic_table(self.state.winner, Selection::from_name(bet_type), bet_amount) as i32
    }

    /// What a main wager pays under the table without commission.
    pub fn no_commission_payout(&self, bet_type: &str, bet_amount: i32) -> (payout: i32)
        requires
            i32::MIN <= no_commission_payout_of(
                self.state.winner,
                self.state.banker_score,
                selection_named(bet_type@),
                bet_amount as int,
            ) <= i32::MAX,
        ensures
            payout == no_commission_payout_of(
                self.state.winner,
                self.state.banker_score,
                selection_named(bet_type@),
                bet_amount as int,
            ),
    {
        no_commission_table(
            self.state.winner,
            self.state.banker_score,
            Selection::from_name(bet_type),
            bet_amount,
        ) as i32
    }

    /// What a main wager pays under the speed table.
    pub fn speed_payout(&self, bet_type: &str, bet_amount: i32) -> (payout: i32)
        requires
            i32::MIN <= speed_payout_of(
                self.state.winner,
                selection_named(bet_type@),
                bet_amount as int,
            ) <= i32::MAX,
        ensures
            payout == speed_payout_of(
                self.state.winner,
                selection_named(bet_type@),
                bet_amount as int,
            ),
    {
        speed_table(self.state.winner, Selection::from_name(bet_type), bet_amount) as i32
    }

    /// What a main wager pays under the EZ table.
    pub fn ez_baccarat_payout(&self, bet_type: &str, bet_amount: i32) -> (payout: i32)
        requires
            i32::MIN <= self.ez_payout_of(selection_named(bet_type@), bet_amount as int)
                <= i32::MAX,
        ensures
            payout == self.ez_payout_of(selection_named(bet_type@), bet_amount as int),
    {
        self.ez_table(Selection::from_name(bet_type), bet_amount) as i32
    }

    /// The EZ table, for a stake of any size.
    fn ez_table(&self, selection: Option<Selection>, stake: i32) -> (payout: i64)
        ensures
            payout == self.ez_payout_of(selection, stake as int),
    {
        match (selection, self.state.winner) {
            (Some(Selection::Player), 1) => stake as i64 * 2,
            (Some(Selection::Banker), 2) => {
                if self.is_seven_push() {
                    stake as i64
                } else {
                    stake as i64 * 2
                }
            },
            (Some(Selection::Tie), 3) => stake as i64 * 9,
            (Some(Selection::Dragon7), 2) => {
                if self.is_dragon_7() {
                    stake as i64 * 40
                } else {
                    0
                }
            },
            (Some(Selection::Panda8), 1) => {
                if self.is_panda_8() {
                    stake as i64 * 25
                } else {
                    0
                }
            },
            _ => 0,
        }
    }

    /// What a main wager pays under the variant of the game, for a stake of any size.
    fn main_payout_wide(&self, selection: Option<Selection>, stake: i32) -> (payout: i64)
        ensures
            payout == self.main_payout_of(selection, stake as int),
    {
        match self.mode {
            GameMode::Classic => classic_table(self.state.winner, selection, stake),
            GameMode::NoCommission => no_commission_table(
                self.state.winner,
                self.state.banker_score,
                selection,
                stake,
            ),
            GameMode::Speed => speed_table(self.state.winner, selection, stake),
            GameMode::EzBaccarat => self.ez_table(selection, stake),
        }
    }

    /// What a main wager of `bet_amount` on the selection named `bet_type` pays, by the table
    /// of the game's variant and the round on record, for every stake: `None` where the
    /// payout does not fit the result type, and the payout otherwise. The result depends on
    /// the variant, the round on record, the selection and the stake, and on nothing else.
    pub fn checked_main_bet_payout(&self, bet_type: &str, bet_amount: i32) -> (payout: Option<i32>)
        ensures
            payout is Some <==> fits_i32(
                self.main_payout_of(selection_named(bet_type@), bet_amount as int),
            ),
            payout is Some ==> payout->0 == self.main_payout_of(
                selection_named(bet_type@),
                bet_amount as int,
            ),
    {
        let wide: i64 = self.main_payout_wide(Selection::from_name(bet_type), bet_amount);
        if i32::MIN as i64 <= wide && wide <= i32::MAX as i64 {
            Some(wide as i32)
        } else {
            None
        }
    }

    /// What a main wager of `bet_amount` on the selection named `bet_type` pays, by the table
    /// of the game's variant and the round on record. A name that is no selection pays
    /// nothing. The payout must fit the result type.
    pub fn calculate_main_bet_payout(&self, bet_type: &str, bet_amount: i32) -> (payout: i32)
        requires
            i32::MIN <= self.main_payout_of(selection_named(bet_type@), bet_amount as int)
                <= i32::MAX,
        ensures
            payout == self.main_payout_of(selection_named(bet_type@), bet_amount as int),
    {
        match self.mode {
            GameMode::Classic => self.classic_payout(bet_type, bet_amount),
            GameMode::NoCommission => self.no_commission_payout(bet_type, bet_amount),
            GameMode::Speed => self.speed_payout(bet_type, bet_amount),
            GameMode::EzBaccarat => self.ez_baccarat_payout(bet_type, bet_amount),
        }
    }
}

impl BaccaratGame {
    /// What the main wager and the side wagers attached to the game pay together on the round
    /// on record. Both the main payout and the sum must fit the result type.
    pub fn total_payout(&self, main_bet_type: &str, main_bet_amount: i32) -> (payout: i32)
        requires
            i32::MIN <= self.main_payout_of(
                selection_named(main_bet_type@),
                main_bet_amount as int,
            ) <= i32::MAX,
            i32::MIN <= self.total_payout_of(
                selection_named(main_bet_type@),
                main_bet_amount as int,
            ) <= i32::MAX,
        ensures
            payout == self.total_payout_of(
                selection_named(main_bet_type@),
                main_bet_amount as int,
            ),
    {
        let main_payout: i32 = self.calculate_main_bet_payout(main_bet_type, main_bet_amount);
        let bonus_payout: i32 = self.bonus_bets.calculate_payouts(self);
        main_payout + bonus_payout
    }
}

/// A main wager never pays more than forty times the stake, nor less than nothing on a stake
/// that is not negative.
pub proof fn lemma_main_payout_bounds(game: BaccaratGame, selection: Option<Selection>, stake: int)
    ensures
        stake >= 0 ==> 0 <= game.main_payout_of(selection, stake) <= 40 * stake,
        stake <= 0 ==> 40 * stake <= game.main_payout_of(selection, stake) <= 0,
{
}

/// A main wager on the player, the banker or a tie never pays more than nine times the stake,
/// nor less than nothing on a stake that is not negative.
pub proof fn lemma_side_payout_bounds(game: BaccaratGame, selection: Selection, stake: int)
    requires
        selection == Selection::Player || selection == Selection::Banker || selection
            == Selection::Tie,
    ensures
        stake >= 0 ==> 0 <= game.main_payout_of(Some(selection), stake) <= 9 * stake,
        stake <= 0 ==> 9 * stake <= game.main_payout_of(Some(selection), stake) <= 0,
{
}

/// The payout of a main wager is decided by the variant, the round on record, the selection
/// and the stake: two games that agree in variant, scores, winner and hands pay the same on
/// every stake, whatever their card sources hold and whatever side wagers are attached. So
/// the payout of the one fits the result type exactly where that of the other does.
pub proof fn lemma_main_payout_determined(
    first: BaccaratGame,
    second: BaccaratGame,
    selection: Option<Selection>,
    stake: int,
)
    requires
        first.mode == second.mode,
        first.state == second.state,
        first.player_hand@ == second.player_hand@,
        first.banker_hand@ == second.banker_hand@,
    ensures
        first.main_payout_of(selection, stake) == second.main_payout_of(selection, stake),
        fits_i32(first.main_payout_of(selection, stake)) == fits_i32(
            second.main_payout_of(selection, stake),
        ),
{
}

/// The 7-push: in the EZ variant a wager on the banker gets back the stake and no more where
/// the banker wins with three cards of point value 0 and a score on record of 7.
pub proof fn lemma_seven_push_returns_stake(game: BaccaratGame, stake: int)
    requires
        game.mode == GameMode::EzBaccarat,
        game.state.winner == WINNER_BANKER,
        game.spec_is_seven_push(),
    ensures
        game.main_payout_of(Some(Selection::Banker), stake) == stake,
{
}

/// A 7-push asks for a score on record that the banker's hand does not have: three cards of
/// point value 0 score 0. Where the scores on record are those of the hands there is no 7-push,
/// and a winning wager on the banker pays twice the stake in the EZ variant.
pub proof fn lemma_no_seven_push_on_agreeing_scores(game: BaccaratGame, stake: int)
    requires
        game.scores_agree(),
    ensures
        !game.spec_is_seven_push(),
        game.mode == GameMode::EzBaccarat && game.state.winner == WINNER_BANKER
            ==> game.main_payout_of(Some(Selection::Banker), stake) == 2 * stake,
{
    if game.banker_hand@.len() == 3 && (forall|i: int|
        0 <= i < 3 ==> (#[trigger] game.banker_hand@[i]).point_value() == 0) {
        let hand = game.banker_hand@;
        reveal_with_fuel(hand_total, 4);
        assert(hand.drop_last()[1] == hand[1]);
        assert(hand.drop_last().drop_last()[0] == hand[0]);
        assert(hand[2].point_value() == 0);
    }
}

} // verus!
