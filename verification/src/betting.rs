//! The bettor's side of a round: placing the main wager and the side wagers against a
//! balance, settling a round that has been played, and the running statistics.

use vstd::prelude::*;
use crate::bonus::{bonus_kind_named, BonusBets, BonusKind};
use crate::game::BaccaratGame;
use crate::payout::{fits_i32, selection_named};
use crate::text::same_text;

verus! {

/// Why a wager was refused.
#[derive(Debug, Clone, Copy, PartialEq, Eq, Structural)]
pub enum BetError {
    /// The wager, together with those already placed, is more than the balance.
    InsufficientBalance,
    /// The main stake is not positive, or more than the balance.
    InvalidAmount,
    /// The name is not that of a wager.
    InvalidSelection,
}

/// Whether a name is one that a main wager can be placed on: `player`, `banker` or `tie`.
pub open spec fn is_main_selection(name: Seq<char>) -> bool {
    name == "player"@ || name == "banker"@ || name == "tie"@
}

/// How often a side wager of one name has paid.
pub struct HitCount {
    pub kind: String,
    pub hits: u32,
}

/// The hits on record under a name: the count of the first entry of that name, and zero where
/// there is none.
pub open spec fn hits_in(entries: Seq<HitCount>, kind: Seq<char>) -> nat
    decreases entries.len(),
{
    if entries.len() == 0 {
        0
    } else if entries.first().kind@ == kind {
        entries.first().hits as nat
    } else {
        hits_in(entries.drop_first(), kind)
    }
}

/// Whether no name occurs twice among the entries: each side wager has one count at most.
pub open spec fn names_are_distinct(entries: Seq<HitCount>) -> bool {
    forall|i: int, j: int|
        #![trigger entries[i], entries[j]]
        0 <= i < j < entries.len() ==> entries[i].kind@ != entries[j].kind@
}

/// Whether the entries hold a count under the name.
pub open spec fn has_entry(entries: Seq<HitCount>, kind: Seq<char>) -> bool {
    exists|i: int| 0 <= i < entries.len() && (#[trigger] entries[i]).kind@ == kind
}

/// Entries of other names at the front do not count.
proof fn lemma_hits_in_skip(entries: Seq<HitCount>, upto: int, kind: Seq<char>)
    requires
        0 <= upto <= entries.len(),
        forall|j: int| 0 <= j < upto ==> (#[trigger] entries[j]).kind@ != kind,
    ensures
        hits_in(entries, kind) == hits_in(entries.skip(upto), kind),
    decreases upto,
{
    if upto == 0 {
        assert(entries.skip(0) =~= entries);
    } else {
        lemma_hits_in_skip(entries.drop_first(), upto - 1, kind);
        assert(entries.drop_first().skip(upto - 1) =~= entries.skip(upto));
    }
}

/// Replacing the first entry of a name by another of that name sets the hits under that name
/// to the new count, and leaves the hits under other names as they were.
proof fn lemma_hits_in_update(entries: Seq<HitCount>, at: int, entry: HitCount, kind: Seq<char>)
    requires
        0 <= at < entries.len(),
        entry.kind@ == entries[at].kind@,
        forall|j: int| 0 <= j < at ==> (#[trigger] entries[j]).kind@ != entry.kind@,
    ensures
        hits_in(entries.update(at, entry), kind) == if kind == entry.kind@ {
            entry.hits as nat
        } else {
            hits_in(entries, kind)
        },
    decreases at,
{
    if at == 0 {
        assert(entries.update(0, entry).drop_first() =~= entries.drop_first());
    } else {
        lemma_hits_in_update(entries.drop_first(), at - 1, entry, kind);
        assert(entries.update(at, entry).drop_first() =~= entries.drop_first().update(
            at - 1,
            entry,
        ));
    }
}

/// Adding an entry of a name that has none sets the hits under that name to the new count, and
/// leaves the hits under other names as they were.
proof fn lemma_hits_in_push(entries: Seq<HitCount>, entry: HitCount, kind: Seq<char>)
    requires
        forall|j: int| 0 <= j < entries.len() ==> (#[trigger] entries[j]).kind@ != entry.kind@,
    ensures
        hits_in(entries.push(entry), kind) == if kind == entry.kind@ {
            entry.hits as nat
        } else {
            hits_in(entries, kind)
        },
    decreases entries.len(),
{
    if entries.len() == 0 {
        assert(entries.push(entry).drop_first() =~= entries);
    } else {
        lemma_hits_in_push(entries.drop_first(), entry, kind);
        assert(entries.push(entry).drop_first() =~= entries.drop_first().push(entry));
    }
}

/// The running totals of the rounds that have been settled. `bonus_hits` counts, by the name
/// of the side wager, how often each has paid; as the methods keep it, no name occurs twice
/// in it.
pub struct RoundStatistics {
    pub hands_played: u32,
    pub amount_wagered: i32,
    pub amount_won: i32,
    pub bonus_hits: Vec<HitCount>,
}

impl RoundStatistics {
    /// The hits on record under a name.
    pub open spec fn hits(&self, kind: Seq<char>) -> nat {
        hits_in(self.bonus_hits@, kind)
    }

    /// The statistics as their methods keep them: no name occurs twice among the hit counts.
    pub open spec fn wf(&self) -> bool {
        names_are_distinct(self.bonus_hits@)
    }

    /// Statistics of no round: no hand played, nothing wagered or won, no hit on record.
    pub fn new() -> (stats: Self)
        ensures
            stats.hands_played == 0,
            stats.amount_wagered == 0,
            stats.amount_won == 0,
            stats.bonus_hits@.len() == 0,
            stats.wf(),
            forall|kind: Seq<char>| stats.hits(kind) == 0,
    {
        Self { hands_played: 0, amount_wagered: 0, amount_won: 0, bonus_hits: Vec::new() }
    }

    /// The hits on record under a name.
    pub fn bonus_hits_of(&self, bonus_type: &str) -> (hits: u32)
        ensures
            hits == self.hits(bonus_type@),
    {
        let mut i: usize = 0;
        while i < self.bonus_hits.len()
            invariant
                i <= self.bonus_hits@.len(),
                forall|j: int| 0 <= j < i ==> (#[trigger] self.bonus_hits@[j]).kind@ != bonus_type@,
            decreases self.bonus_hits@.len() - i,
        {
            if same_text(self.bonus_hits[i].kind.as_str(), bonus_type) {
                proof {
                    lemma_hits_in_skip(self.bonus_hits@, i as int, bonus_type@);
                    assert(self.bonus_hits@.skip(i as int).first() == self.bonus_hits@[i as int]);
                }
                return self.bonus_hits[i].hits;
            }
            i += 1;
        }
        proof {
            lemma_hits_in_skip(self.bonus_hits@, i as int, bonus_type@);
        }
        0
    }

    /// Counts one more hit under the name: in the entry of that name where there is one, and
    /// in a new entry where there is none. Names that were distinct stay so.
    pub fn record_bonus_hit(&mut self, bonus_type: &str)
        requires
            old(self).hits(bonus_type@) < u32::MAX,
        ensures
            forall|kind: Seq<char>|
                #[trigger] final(self).hits(kind) == old(self).hits(kind) + if kind
                    == bonus_type@ {
                    1nat
                } else {
                    0nat
                },
            old(self).wf() ==> final(self).wf(),
            forall|kind: Seq<char>|
                #[trigger] has_entry(final(self).bonus_hits@, kind) <==> has_entry(
                    old(self).bonus_hits@,
                    kind,
                ) || kind == bonus_type@,
            final(self).bonus_hits@.len() == old(self).bonus_hits@.len() + if has_entry(
                old(self).bonus_hits@,
                bonus_type@,
            ) {
                0nat
            } else {
                1nat
            },
            final(self).hands_played == old(self).hands_played,
            final(self).amount_wagered == old(self).amount_wagered,
            final(self).amount_won == old(self).amount_won,
    {
        let mut i: usize = 0;
        while i < self.bonus_hits.len()
            invariant
                i <= self.bonus_hits@.len(),
                *self == *old(self),
                self.hits(bonus_type@) < u32::MAX,
                forall|j: int| 0 <= j < i ==> (#[trigger] self.bonus_hits@[j]).kind@ != bonus_type@,
            decreases self.bonus_hits@.len() - i,
        {
            if same_text(self.bonus_hits[i].kind.as_str(), bonus_type) {
                proof {
                    lemma_hits_in_skip(self.bonus_hits@, i as int, bonus_type@);
                    assert(self.bonus_hits@.skip(i as int).first() == self.bonus_hits@[i as int]);
                }
                let entry = HitCount {
                    kind: bonus_type.to_owned(),
                    hits: self.bonus_hits[i].hits + 1,
                };
                proof {
                    assert forall|kind: Seq<char>|
                        hits_in(#[trigger] self.bonus_hits@.update(i as int, entry), kind)
                            == hits_in(self.bonus_hits@, kind) + if kind == bonus_type@ {
                            1nat
                        } else {
                            0nat
                        } by {
                        lemma_hits_in_update(self.bonus_hits@, i as int, entry, kind);
                    }
                    let before = self.bonus_hits@;
                    let after = before.update(i as int, entry);
                    assert(before[i as int].kind@ == bonus_type@);
                    assert(after[i as int].kind@ == bonus_type@);
                    assert forall|a: int| 0 <= a < after.len() implies (#[trigger] after[a]).kind@
                        == before[a].kind@ by {}
                    assert forall|kind: Seq<char>| #[trigger]
                        has_entry(after, kind) <==> has_entry(before, kind) || kind
                            == bonus_type@ by {
                        if has_entry(after, kind) {
                            let a = choose|a: int|
                                0 <= a < after.len() && (#[trigger] after[a]).kind@ == kind;
                            assert(before[a].kind@ == kind);
                        }
                        if has_entry(before, kind) {
                            let a = choose|a: int|
                                0 <= a < before.len() && (#[trigger] before[a]).kind@ == kind;
                            assert(after[a].kind@ == kind);
                        }
                    }
                }
                self.bonus_hits[i] = entry;
                return ;
            }
            i += 1;
        }
        let entry = HitCount { kind: bonus_type.to_owned(), hits: 1 };
        proof {
            lemma_hits_in_skip(self.bonus_hits@, i as int, bonus_type@);
            assert forall|kind: Seq<char>|
                hits_in(#[trigger] self.bonus_hits@.push(entry), kind) == hits_in(
                    self.bonus_hits@,
                    kind,
                ) + if kind == bonus_type@ {
                    1nat
                } else {
                    0nat
                } by {
                lemma_hits_in_push(self.bonus_hits@, entry, kind);
            }
            let before = self.bonus_hits@;
            let after = before.push(entry);
            assert(after[before.len() as int].kind@ == bonus_type@);
            assert forall|a: int| 0 <= a < before.len() implies (#[trigger] after[a]).kind@
                == before[a].kind@ by {}
            assert forall|kind: Seq<char>| #[trigger]
                has_entry(after, kind) <==> has_entry(before, kind) || kind == bonus_type@ by {
                if has_entry(after, kind) {
                    let a = choose|a: int|
                        0 <= a < after.len() && (#[trigger] after[a]).kind@ == kind;
                    if a < before.len() {
                        assert(before[a].kind@ == kind);
                    }
                }
                if has_entry(before, kind) {
                    let a = choose|a: int|
                        0 <= a < before.len() && (#[trigger] before[a]).kind@ == kind;
                    assert(after[a].kind@ == kind);
                }
            }
        }
        self.bonus_hits.push(entry);
    }
}

/// The hits that settling a round adds under a name: one for each side wager of that name
/// that is placed and pays.
pub open spec fn hits_earned(bets: BonusBets, game: &BaccaratGame, name: Seq<char>) -> nat {
    hit_earned(bets, BonusKind::PlayerPair, game, name) + hit_earned(
        bets,
        BonusKind::BankerPair,
        game,
        name,
    ) + hit_earned(bets, BonusKind::EitherPair, game, name) + hit_earned(
        bets,
        BonusKind::PerfectPair,
        game,
        name,
    ) + hit_earned(bets, BonusKind::PlayerDragon, game, name) + hit_earned(
        bets,
        BonusKind::BankerDragon,
        game,
        name,
    ) + hit_earned(bets, BonusKind::Lucky6, game, name)
}

/// One where the name is that of the side wager and the wager is placed and pays, else zero.
pub open spec fn hit_earned(
    bets: BonusBets,
    kind: BonusKind,
    game: &BaccaratGame,
    name: Seq<char>,
) -> nat {
    if name == kind.spec_name() && bets.spec_is_hit(kind, game) {
        1
    } else {
        0
    }
}

/// A bettor's balance, the wagers placed for the next round, and the statistics of the rounds
/// settled so far.
pub struct BettingRound {
    pub main_bet_type: String,
    pub main_bet_amount: i32,
    pub bonus_bets: BonusBets,
    pub balance: i32,
    pub round_stats: RoundStatistics,
}

impl BettingRound {
    /// All that is staked: the main wager and the seven side wagers.
    pub open spec fn total_staked(&self) -> int {
        self.main_bet_amount + self.bonus_bets.total()
    }

    /// What the round that a game has on record pays: on the main wager of the bettor by the
    /// variant of the game, and on the side wagers that are attached to the game.
    pub open spec fn payout_on(&self, game: &BaccaratGame) -> int {
        game.total_payout_of(selection_named(self.main_bet_type@), self.main_bet_amount as int)
    }

    /// Whether the balance and the statistics can take the settlement of the round that a game
    /// has on record: the payout, the new balance, the new totals and the new counts all fit
    /// their types.
    pub open spec fn can_settle(&self, game: &BaccaratGame) -> bool {
        &&& fits_i32(
            game.main_payout_of(selection_named(self.main_bet_type@), self.main_bet_amount as int),
        )
        &&& fits_i32(self.payout_on(game))
        &&& fits_i32(self.balance - self.total_staked() + self.payout_on(game))
        &&& fits_i32(self.round_stats.amount_wagered + self.total_staked())
        &&& fits_i32(self.round_stats.amount_won + self.payout_on(game))
        &&& self.round_stats.hands_played < u32::MAX
        &&& forall|name: Seq<char>|
            #[trigger] self.round_stats.hits(name) + hits_earned(self.bonus_bets, game, name)
                <= u32::MAX
    }

    /// A bettor with the given balance and no wager placed.
    pub fn new(balance: i32) -> (round: Self)
        ensures
            round.main_bet_type@.len() == 0,
            round.main_bet_amount == 0,
            round.bonus_bets == crate::bonus::no_bets(),
            round.balance == balance,
            round.round_stats.hands_played == 0,
            round.round_stats.amount_wagered == 0,
            round.round_stats.amount_won == 0,
            round.round_stats.bonus_hits@.len() == 0,
            round.round_stats.wf(),
            forall|kind: Seq<char>| round.round_stats.hits(kind) == 0,
    {
        Self {
            main_bet_type: String::new(),
            main_bet_amount: 0,
            bonus_bets: BonusBets::new(),
            balance,
            round_stats: RoundStatistics::new(),
        }
    }

    /// Places the main wager. The stake must be positive and no more than the balance, and
    /// the name one of `player`, `banker` and `tie`; a wager that is refused changes nothing.
    pub fn place_main_bet(&mut self, bet_type: &str, amount: i32) -> (placed: Result<(), BetError>)
        ensures
            placed is Ok <==> 0 < amount <= old(self).balance && is_main_selection(bet_type@),
            placed == Err::<(), BetError>(BetError::InvalidAmount) <==> amount <= 0 || amount
                > old(self).balance,
            placed == Err::<(), BetError>(BetError::InvalidSelection) <==> {
                &&& 0 < amount <= old(self).balance
                &&& !is_main_selection(bet_type@)
            },
            placed is Err ==> *final(self) == *old(self),
            placed is Ok ==> {
                &&& final(self).main_bet_type@ == bet_type@
                &&& final(self).main_bet_amount == amount
                &&& final(self).bonus_bets == old(self).bonus_bets
                &&& final(self).balance == old(self).balance
                &&& final(self).round_stats == old(self).round_stats
            },
    {
        if amount <= 0 || amount > self.balance {
            return Err(BetError::InvalidAmount);
        }
        if !(same_text(bet_type, "player") || same_text(bet_type, "banker") || same_text(
            bet_type,
            "tie",
        )) {
            return Err(BetError::InvalidSelection);
        }
        self.main_bet_type = bet_type.to_owned();
        self.main_bet_amount = amount;
        Ok(())
    }

    /// Places a side wager, or sets its stake anew. The main stake, the side stakes already
    /// placed and the new stake together must be no more than the balance, and the name must
    /// be that of a side wager; a wager that is refused changes nothing.
    pub fn place_bonus_bet(&mut self, bet_type: &str, amount: u8) -> (placed: Result<(), BetError>)
        ensures
            placed is Ok <==> old(self).total_staked() + amount <= old(self).balance
                && bonus_kind_named(bet_type@) is Some,
            placed == Err::<(), BetError>(BetError::InsufficientBalance) <==> {
                old(self).total_staked() + amount > old(self).balance
            },
            placed == Err::<(), BetError>(BetError::InvalidSelection) <==> {
                &&& old(self).total_staked() + amount <= old(self).balance
                &&& bonus_kind_named(bet_type@) is None
            },
            placed is Err ==> *final(self) == *old(self),
            placed is Ok ==> {
                &&& final(self).bonus_bets == old(self).bonus_bets.with_stake(
                    bonus_kind_named(bet_type@)->0,
                    amount,
                )
                &&& final(self).main_bet_type == old(self).main_bet_type
                &&& final(self).main_bet_amount == old(self).main_bet_amount
                &&& final(self).balance == old(self).balance
                &&& final(self).round_stats == old(self).round_stats
            },
    {
        let total_bet: i64 = self.main_bet_amount as i64 + self.bonus_bets.total_bet() as i64
            + amount as i64;
        if total_bet > self.balance as i64 {
            return Err(BetError::InsufficientBalance);
        }
        match BonusKind::from_name(bet_type) {
            Some(BonusKind::PlayerPair) => self.bonus_bets.player_pair = amount,
            Some(BonusKind::BankerPair) => self.bonus_bets.banker_pair = amount,
            Some(BonusKind::EitherPair) => self.bonus_bets.either_pair = amount,
            Some(BonusKind::PerfectPair) => self.bonus_bets.perfect_pair = amount,
            Some(BonusKind::PlayerDragon) => self.bonus_bets.player_dragon = amount,
            Some(BonusKind::BankerDragon) => self.bonus_bets.banker_dragon = amount,
            Some(BonusKind::Lucky6) => self.bonus_bets.lucky_6 = amount,
            None => return Err(BetError::InvalidSelection),
        }
        Ok(())
    }

    /// Counts a hit under the name of a side wager where the wager is placed and pays.
    fn record_if_hit(&mut self, kind: BonusKind, game: &BaccaratGame)
        requires
            old(self).round_stats.hits(kind.spec_name()) + hit_earned(
                old(self).bonus_bets,
                kind,
                game,
                kind.spec_name(),
            ) <= u32::MAX,
        ensures
            forall|name: Seq<char>|
                #[trigger] final(self).round_stats.hits(name) == old(self).round_stats.hits(name)
                    + hit_earned(old(self).bonus_bets, kind, game, name),
            forall|name: Seq<char>|
                #[trigger] has_entry(final(self).round_stats.bonus_hits@, name) <==> has_entry(
                    old(self).round_stats.bonus_hits@,
                    name,
                ) || hit_earned(old(self).bonus_bets, kind, game, name) > 0,
            old(self).round_stats.wf() ==> final(self).round_stats.wf(),
            final(self).round_stats.hands_played == old(self).round_stats.hands_played,
            final(self).round_stats.amount_wagered == old(self).round_stats.amount_wagered,
            final(self).round_stats.amount_won == old(self).round_stats.amount_won,
            final(self).main_bet_type == old(self).main_bet_type,
            final(self).main_bet_amount == old(self).main_bet_amount,
            final(self).bonus_bets == old(self).bonus_bets,
            final(self).balance == old(self).balance,
    {
        if self.bonus_bets.is_hit(kind, game) {
            self.round_stats.record_bonus_hit(kind.name());
        }
    }

    /// Counts a hit for each side wager that is placed and pays.
    fn record_hits(&mut self, game: &BaccaratGame)
        requires
            forall|name: Seq<char>|
                #[trigger] old(self).round_stats.hits(name) + hits_earned(
                    old(self).bonus_bets,
                    game,
                    name,
                ) <= u32::MAX,
        ensures
            forall|name: Seq<char>|
                #[trigger] final(self).round_stats.hits(name) == old(self).round_stats.hits(name)
                    + hits_earned(old(self).bonus_bets, game, name),
            forall|name: Seq<char>|
                #[trigger] has_entry(final(self).round_stats.bonus_hits@, name) <==> has_entry(
                    old(self).round_stats.bonus_hits@,
                    name,
                ) || hits_earned(old(self).bonus_bets, game, name) > 0,
            old(self).round_stats.wf() ==> final(self).round_stats.wf(),
            final(self).round_stats.hands_played == old(self).round_stats.hands_played,
            final(self).round_stats.amount_wagered == old(self).round_stats.amount_wagered,
            final(self).round_stats.amount_won == old(self).round_stats.amount_won,
            final(self).main_bet_type == old(self).main_bet_type,
            final(self).main_bet_amount == old(self).main_bet_amount,
            final(self).bonus_bets == old(self).bonus_bets,
            final(self).balance == old(self).balance,
    {
        proof {
            // The bound is stated of every name; it is needed of these seven.
            let before = old(self).round_stats;
            let bets = old(self).bonus_bets;
            assert(before.hits("player_pair"@) + hits_earned(bets, game, "player_pair"@)
                <= u32::MAX);
            assert(before.hits("banker_pair"@) + hits_earned(bets, game, "banker_pair"@)
                <= u32::MAX);
            assert(before.hits("either_pair"@) + hits_earned(bets, game, "either_pair"@)
                <= u32::MAX);
            assert(before.hits("perfect_pair"@) + hits_earned(bets, game, "perfect_pair"@)
                <= u32::MAX);
            assert(before.hits("player_dragon"@) + hits_earned(bets, game, "player_dragon"@)
                <= u32::MAX);
            assert(before.hits("banker_dragon"@) + hits_earned(bets, game, "banker_dragon"@)
                <= u32::MAX);
            assert(before.hits("lucky_6"@) + hits_earned(bets, game, "lucky_6"@) <= u32::MAX);
        }
        self.record_if_hit(BonusKind::PlayerPair, game);
        self.record_if_hit(BonusKind::BankerPair, game);
        self.record_if_hit(BonusKind::EitherPair, game);
        self.record_if_hit(BonusKind::PerfectPair, game);
        self.record_if_hit(BonusKind::PlayerDragon, game);
        self.record_if_hit(BonusKind::BankerDragon, game);
        self.record_if_hit(BonusKind::Lucky6, game);
    }

    /// Settles a round that the game has played. The balance loses all that was staked and
    /// gains what the game pays on the main wager and on the side wagers attached to it; the
    /// statistics count one more hand, the stakes, the payout, and a hit for each side wager
    /// of the bettor that is placed and pays, each under its one name. The wagers stay as they
    /// are placed. The new balance and totals must fit their types.
    pub fn settle_round(&mut self, game: &BaccaratGame) -> (payout: i32)
        requires
            old(self).can_settle(game),
        ensures
            payout == old(self).payout_on(game),
            final(self).balance == old(self).balance - old(self).total_staked() + payout,
            final(self).round_stats.hands_played == old(self).round_stats.hands_played + 1,
            final(self).round_stats.amount_wagered == old(self).round_stats.amount_wagered
                + old(self).total_staked(),
            final(self).round_stats.amount_won == old(self).round_stats.amount_won + payout,
            forall|name: Seq<char>|
                #[trigger] final(self).round_stats.hits(name) == old(self).round_stats.hits(name)
                    + hits_earned(old(self).bonus_bets, game, name),
            forall|name: Seq<char>|
                #[trigger] has_entry(final(self).round_stats.bonus_hits@, name) <==> has_entry(
                    old(self).round_stats.bonus_hits@,
                    name,
                ) || hits_earned(old(self).bonus_bets, game, name) > 0,
            old(self).round_stats.wf() ==> final(self).round_stats.wf(),
            final(self).main_bet_type == old(self).main_bet_type,
            final(self).main_bet_amount == old(self).main_bet_amount,
            final(self).bonus_bets == old(self).bonus_bets,
    {
        let total_bet: i64 = self.main_bet_amount as i64 + self.bonus_bets.total_bet() as i64;
        let payout: i32 = game.total_payout(self.main_bet_type.as_str(), self.main_bet_amount);
        self.balance = (self.balance as i64 - total_bet + payout as i64) as i32;
        self.round_stats.hands_played += 1;
        self.round_stats.amount_wagered = (self.round_stats.amount_wagered as i64
            + total_bet) as i32;
        self.round_stats.amount_won += payout;
        proof {
            assert forall|name: Seq<char>|
                #[trigger] self.round_stats.hits(name) + hits_earned(self.bonus_bets, game, name)
                    <= u32::MAX by {
                assert(old(self).round_stats.hits(name) + hits_earned(
                    old(self).bonus_bets,
                    game,
                    name,
                ) <= u32::MAX);
            }
        }
        self.record_hits(game);
        payout
    }
}

} // verus!
