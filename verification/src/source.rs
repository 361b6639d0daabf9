//! Card sources: a single deck, a multi-deck shoe with a cut card, and the choice between them.
//!
//! A source holds the cards that are still to come as a sequence whose last element is dealt
//! next.

use vstd::prelude::*;
use rand::rngs::StdRng;
use rand::seq::SliceRandom;
use rand::SeedableRng;
use crate::card::Card;

verus! {

/// A single deck asks for a reshuffle once fewer cards than this remain.
pub const SINGLE_DECK_FLOOR: usize = 6;

/// The least number of cards that a shoe keeps behind its cut card.
pub const CUT_CARD_MIN_RESERVE: usize = 15;

/// The card at position `i` of a fresh deck: the suits in turn, each from ace to king.
pub open spec fn standard_card(i: int) -> Card {
    Card { suit: (i / 13) as u8, rank: (i % 13 + 1) as u8 }
}

/// The 52 cards of a fresh deck, in the order in which it is built.
pub open spec fn standard_deck() -> Seq<Card> {
    Seq::new(52, |i: int| standard_card(i))
}

/// `num_decks` fresh decks, one after the other.
pub open spec fn stacked_decks(num_decks: nat) -> Seq<Card>
    decreases num_decks,
{
    if num_decks == 0 {
        Seq::empty()
    } else {
        stacked_decks((num_decks - 1) as nat) + standard_deck()
    }
}

/// The number of cards that a shoe of `total` cards keeps behind its cut card:
/// a tenth of the shoe, and never fewer than [`CUT_CARD_MIN_RESERVE`].
pub open spec fn cut_card_reserve(total: nat) -> nat {
    if total / 10 >= CUT_CARD_MIN_RESERVE {
        total / 10
    } else {
        CUT_CARD_MIN_RESERVE as nat
    }
}

/// The number of cards that a shoe of `total` cards deals before it reaches its cut card.
pub open spec fn cut_card_offset(total: nat) -> int {
    total - cut_card_reserve(total)
}

/// A stack of fresh decks holds 52 cards for each deck.
pub proof fn lemma_stacked_decks_len(num_decks: nat)
    ensures
        stacked_decks(num_decks).len() == 52 * num_decks,
    decreases num_decks,
{
    if num_decks > 0 {
        lemma_stacked_decks_len((num_decks - 1) as nat);
    }
}

/// Every card of a fresh deck is a real card, and no card occurs twice in it.
pub proof fn lemma_standard_deck_cards()
    ensures
        forall|i: int| 0 <= i < 52 ==> (#[trigger] standard_deck()[i]).is_valid(),
        standard_deck().no_duplicates(),
{
    assert forall|i: int, j: int| 0 <= i < 52 && 0 <= j < 52 && i != j implies standard_deck()[i]
        != standard_deck()[j] by {
        if i / 13 == j / 13 {
            assert(i % 13 != j % 13);
        }
    }
}

/// Every card of a stack of fresh decks is a real card.
pub proof fn lemma_stacked_decks_cards(num_decks: nat)
    ensures
        forall|i: int|
            0 <= i < stacked_decks(num_decks).len() ==> (#[trigger] stacked_decks(
                num_decks,
            )[i]).is_valid(),
    decreases num_decks,
{
    if num_decks > 0 {
        let below = stacked_decks((num_decks - 1) as nat);
        lemma_stacked_decks_cards((num_decks - 1) as nat);
        lemma_standard_deck_cards();
        assert forall|i: int| 0 <= i < stacked_decks(num_decks).len() implies (
        #[trigger] stacked_decks(num_decks)[i]).is_valid() by {
            if i < below.len() {
                assert(stacked_decks(num_decks)[i] == below[i]);
            } else {
                assert(stacked_decks(num_decks)[i] == standard_deck()[i - below.len()]);
            }
        }
    }
}

/// Cards that are real cards stay so in any order: where two sequences hold the same cards
/// and the one holds real cards only, so does the other.
pub proof fn lemma_same_cards_are_valid(cards: Seq<Card>, ordered: Seq<Card>)
    requires
        cards.to_multiset() == ordered.to_multiset(),
        forall|i: int| 0 <= i < ordered.len() ==> (#[trigger] ordered[i]).is_valid(),
    ensures
        forall|i: int| 0 <= i < cards.len() ==> (#[trigger] cards[i]).is_valid(),
{
    cards.to_multiset_ensures();
    ordered.to_multiset_ensures();
    assert forall|i: int| 0 <= i < cards.len() implies (#[trigger] cards[i]).is_valid() by {
        assert(cards.contains(cards[i]));
        assert(cards.to_multiset().count(cards[i]) > 0);
        assert(ordered.to_multiset().count(cards[i]) > 0);
        let at = choose|j: int| 0 <= j < ordered.len() && ordered[j] == cards[i];
        assert(ordered[at].is_valid());
    }
}

/// Where the order of a shuffle comes from.
#[derive(Debug, Clone, Copy, PartialEq, Eq, Structural)]
pub enum Randomness {
    /// From the generator of the running thread, which the operating system seeds.
    Entropy,
    /// From a generator seeded with this number. Each shuffle uses the seed that it finds and
    /// leaves the next one behind.
    Seeded(u64),
}

impl Randomness {
    /// The randomness that a shuffle leaves behind: the seed that follows, the last one being
    /// followed by the first.
    pub open spec fn spec_advanced(self) -> Randomness {
        match self {
            Randomness::Entropy => Randomness::Entropy,
            Randomness::Seeded(seed) => Randomness::Seeded(
                if seed == u64::MAX {
                    0
                } else {
                    (seed + 1) as u64
                },
            ),
        }
    }

    /// The randomness that a shuffle leaves behind.
    pub fn advanced(self) -> (next: Randomness)
        ensures
            next == self.spec_advanced(),
    {
        match self {
            Randomness::Entropy => Randomness::Entropy,
            Randomness::Seeded(seed) => Randomness::Seeded(
                if seed == u64::MAX {
                    0
                } else {
                    seed + 1
                },
            ),
        }
    }
}

/// Shuffles the cards in place with `rand::seq::SliceRandom::shuffle`, drawing from the
/// thread-local generator that `rand::rng()` hands out. The shuffle only swaps elements of the
/// slice, so the cards after the call are the cards before it in some order; which order is
/// left open.
#[verifier::external_body]
fn shuffle_cards(cards: &mut Vec<Card>)
    ensures
        final(cards)@.to_multiset() == old(cards)@.to_multiset(),
{
    let mut rng = rand::rng();
    cards.shuffle(&mut rng);
}

/// Shuffles the cards in place with `rand::seq::SliceRandom::shuffle`, drawing from a
/// `rand::rngs::StdRng` that `rand::SeedableRng::seed_from_u64` makes from the seed. The
/// shuffle only swaps elements of the slice, so the cards after the call are the cards before
/// it in some order; nothing is claimed of which order a seed gives.
#[verifier::external_body]
fn shuffle_cards_seeded(cards: &mut Vec<Card>, seed: u64)
    ensures
        final(cards)@.to_multiset() == old(cards)@.to_multiset(),
{
    let mut rng = StdRng::seed_from_u64(seed);
    cards.shuffle(&mut rng);
}

/// Shuffles the cards by the given randomness, and says what randomness the shuffle leaves
/// behind.
fn shuffle_with(cards: &mut Vec<Card>, randomness: Randomness) -> (next: Randomness)
    ensures
        final(cards)@.to_multiset() == old(cards)@.to_multiset(),
        final(cards)@.len() == old(cards)@.len(),
        next == randomness.spec_advanced(),
{
    match randomness {
        Randomness::Entropy => shuffle_cards(cards),
        Randomness::Seeded(seed) => shuffle_cards_seeded(cards, seed),
    }
    proof {
        old(cards)@.to_multiset_ensures();
        cards@.to_multiset_ensures();
    }
    randomness.advanced()
}

/// Appends the 52 cards of a fresh deck.
fn push_standard_deck(cards: &mut Vec<Card>)
    ensures
        final(cards)@ == old(cards)@ + standard_deck(),
{
    let mut suit: u8 = 0;
    while suit < 4
        invariant
            suit <= 4,
            cards@ == old(cards)@ + standard_deck().take(13 * suit),
        decreases 4 - suit,
    {
        let mut rank: u8 = 1;
        while rank <= 13
            invariant
                suit < 4,
                1 <= rank <= 14,
                cards@ == old(cards)@ + standard_deck().take(13 * suit + rank - 1),
            decreases 14 - rank,
        {
            proof {
                let at: int = 13 * suit + rank - 1;
                assert(standard_deck()[at] == Card { suit, rank });
                assert(standard_deck().take(at + 1) =~= standard_deck().take(at).push(
                    Card { suit, rank },
                ));
                assert((old(cards)@ + standard_deck().take(at)).push(Card { suit, rank })
                    =~= old(cards)@ + standard_deck().take(at + 1));
            }
            cards.push(Card::new(suit, rank));
            rank += 1;
        }
        suit += 1;
    }
    proof {
        assert(standard_deck().take(52) =~= standard_deck());
    }
}

/// What a deck holds: the cards still in it (the last one is dealt next), and the randomness
/// of its next shuffle.
pub struct DeckView {
    pub cards: Seq<Card>,
    pub randomness: Randomness,
}

/// A deck of cards.
pub struct Deck {
    cards: Vec<Card>,
    randomness: Randomness,
}

impl View for Deck {
    type V = DeckView;

    closed spec fn view(&self) -> DeckView {
        DeckView { cards: self.cards@, randomness: self.randomness }
    }
}

impl Deck {
    /// A fresh deck in its standard order, to be shuffled by the given randomness.
    fn fresh(randomness: Randomness) -> (deck: Self)
        ensures
            deck@ == (DeckView { cards: standard_deck(), randomness }),
    {
        let mut cards: Vec<Card> = Vec::with_capacity(52);
        push_standard_deck(&mut cards);
        proof {
            assert(Seq::<Card>::empty() + standard_deck() =~= standard_deck());
        }
        Self { cards, randomness }
    }

    /// A fresh deck in its standard order, whose shuffles no run repeats.
    pub fn new() -> (deck: Self)
        ensures
            deck@ == (DeckView { cards: standard_deck(), randomness: Randomness::Entropy }),
    {
        Self::fresh(Randomness::Entropy)
    }

    /// A fresh deck in its standard order, whose shuffles follow from the seed.
    pub fn seeded(seed: u64) -> (deck: Self)
        ensures
            deck@ == (DeckView { cards: standard_deck(), randomness: Randomness::Seeded(seed) }),
    {
        Self::fresh(Randomness::Seeded(seed))
    }

    /// A deck that holds the given cards, of which the last is dealt first. This is how a
    /// recorded order of cards is played again.
    pub fn from_cards(cards: Vec<Card>) -> (deck: Self)
        ensures
            deck@ == (DeckView { cards: cards@, randomness: Randomness::Entropy }),
    {
        Self { cards, randomness: Randomness::Entropy }
    }

    /// Brings the cards of the deck into a random order.
    pub fn shuffle(&mut self)
        ensures
            final(self)@.cards.to_multiset() == old(self)@.cards.to_multiset(),
            final(self)@.cards.len() == old(self)@.cards.len(),
            final(self)@.randomness == old(self)@.randomness.spec_advanced(),
    {
        self.randomness = shuffle_with(&mut self.cards, self.randomness);
    }

    /// Takes the next card, if one is left.
    pub fn deal(&mut self) -> (card: Option<Card>)
        ensures
            old(self)@.cards.len() == 0 ==> card.is_none() && final(self)@ == old(self)@,
            old(self)@.cards.len() > 0 ==> card == Some(old(self)@.cards.last()) && final(self)@
                == (DeckView { cards: old(self)@.cards.drop_last(), ..old(self)@ }),
    {
        self.cards.pop()
    }

    /// The number of cards still in it.
    pub fn cards_remaining(&self) -> (count: usize)
        ensures
            count == self@.cards.len(),
    {
        self.cards.len()
    }
}

/// What a shoe holds: the cards still in it (the last one is dealt next), the number of decks
/// it was made of, the number of cards it deals before its cut card, the number dealt so far,
/// and the randomness of its next shuffle.
pub struct ShoeView {
    pub cards: Seq<Card>,
    pub num_decks: nat,
    pub cut_card_position: nat,
    pub cards_dealt: nat,
    pub randomness: Randomness,
}

impl ShoeView {
    /// The number of cards that the shoe was made of.
    pub open spec fn total(self) -> nat {
        52 * self.num_decks
    }

    /// A shoe as its methods keep it: made of one deck or more, with its cut card in place, and
    /// with as many cards dealt as are missing.
    pub open spec fn wf(self) -> bool {
        &&& self.num_decks >= 1
        &&& self.total() <= usize::MAX
        &&& self.cards.len() + self.cards_dealt == self.total()
        &&& self.cut_card_position == cut_card_offset(self.total())
    }

    /// Whether the cut card has been reached: no more cards remain than the reserve behind it.
    pub open spec fn needs_reshuffle(self) -> bool {
        self.cards.len() <= self.total() - self.cut_card_position
    }

    /// A shoe of `num_decks` decks from which nothing has been dealt, shuffled by the given
    /// randomness.
    pub open spec fn is_fresh(self, num_decks: nat, randomness: Randomness) -> bool {
        &&& self.wf()
        &&& self.num_decks == num_decks
        &&& self.cards_dealt == 0
        &&& self.cards.to_multiset() == stacked_decks(num_decks).to_multiset()
        &&& self.cards.len() == 52 * num_decks
        &&& self.randomness == randomness.spec_advanced()
    }
}

/// A shoe asks for a reshuffle exactly once it has dealt as many cards as lie before its cut
/// card, and at that point at least [`CUT_CARD_MIN_RESERVE`] cards are still in it.
pub proof fn lemma_cut_card_reached(shoe: ShoeView)
    requires
        shoe.wf(),
    ensures
        shoe.needs_reshuffle() <==> shoe.cards_dealt >= shoe.cut_card_position,
        shoe.needs_reshuffle() <==> shoe.cards.len() <= cut_card_reserve(shoe.total()),
        cut_card_reserve(shoe.total()) >= CUT_CARD_MIN_RESERVE,
        0 <= shoe.cut_card_position <= shoe.total() - CUT_CARD_MIN_RESERVE,
{
}

/// A shoe of one deck keeps 15 cards behind its cut card: it asks for a reshuffle once 37
/// cards have been dealt, and never earlier.
pub proof fn lemma_one_deck_shoe_cut_card(shoe: ShoeView)
    requires
        shoe.wf(),
        shoe.num_decks == 1,
    ensures
        shoe.cut_card_position == 37,
        shoe.needs_reshuffle() <==> shoe.cards_dealt >= 37,
{
}

/// A shoe of several decks, shuffled together, with a cut card near its end.
pub struct Shoe {
    cards: Vec<Card>,
    num_decks: usize,
    cut_card_position: usize,
    cards_dealt: usize,
    randomness: Randomness,
}

impl View for Shoe {
    type V = ShoeView;

    closed spec fn view(&self) -> ShoeView {
        ShoeView {
            cards: self.cards@,
            num_decks: self.num_decks as nat,
            cut_card_position: self.cut_card_position as nat,
            cards_dealt: self.cards_dealt as nat,
            randomness: self.randomness,
        }
    }
}

impl Shoe {
    /// A shoe as its methods keep it.
    pub open spec fn wf(&self) -> bool {
        self@.wf()
    }

    /// A shuffled shoe of `num_decks` decks, whose shuffles no run repeats.
    pub fn new(num_decks: usize) -> (shoe: Self)
        requires
            1 <= num_decks,
            52 * num_decks <= usize::MAX,
        ensures
            shoe@.is_fresh(num_decks as nat, Randomness::Entropy),
    {
        Self::shuffled(num_decks, Randomness::Entropy)
    }

    /// A shuffled shoe of `num_decks` decks, whose shuffles follow from the seed.
    pub fn seeded(num_decks: usize, seed: u64) -> (shoe: Self)
        requires
            1 <= num_decks,
            52 * num_decks <= usize::MAX,
        ensures
            shoe@.is_fresh(num_decks as nat, Randomness::Seeded(seed)),
    {
        Self::shuffled(num_decks, Randomness::Seeded(seed))
    }

    /// A shoe of `num_decks` decks, shuffled by the given randomness, with its cut card set.
    fn shuffled(num_decks: usize, randomness: Randomness) -> (shoe: Self)
        requires
            1 <= num_decks,
            52 * num_decks <= usize::MAX,
        ensures
            shoe@.is_fresh(num_decks as nat, randomness),
    {
        let mut cards: Vec<Card> = Vec::with_capacity(52 * num_decks);
        let mut built: usize = 0;
        while built < num_decks
            invariant
                built <= num_decks,
                cards@ == stacked_decks(built as nat),
            decreases num_decks - built,
        {
            push_standard_deck(&mut cards);
            built += 1;
        }
        let next = shuffle_with(&mut cards, randomness);
        proof {
            lemma_stacked_decks_len(num_decks as nat);
        }
        let total: usize = cards.len();
        let tenth: usize = total / 10;
        let reserve: usize = if tenth >= CUT_CARD_MIN_RESERVE {
            tenth
        } else {
            CUT_CARD_MIN_RESERVE
        };
        let cut_card_position: usize = total - reserve;
        Self { cards, num_decks, cut_card_position, cards_dealt: 0, randomness: next }
    }

    /// Takes the next card, if one is left.
    pub fn deal(&mut self) -> (card: Option<Card>)
        requires
            old(self).wf(),
        ensures
            final(self).wf(),
            old(self)@.cards.len() == 0 ==> card.is_none() && final(self)@ == old(self)@,
            old(self)@.cards.len() > 0 ==> card == Some(old(self)@.cards.last()) && final(self)@
                == (ShoeView {
                cards: old(self)@.cards.drop_last(),
                cards_dealt: old(self)@.cards_dealt + 1,
                ..old(self)@
            }),
    {
        if self.cards.len() == 0 {
            return None;
        }
        self.cards_dealt += 1;
        self.cards.pop()
    }

    /// Whether the cut card has been reached.
    pub fn needs_reshuffle(&self) -> (needed: bool)
        requires
            self.wf(),
        ensures
            needed == self@.needs_reshuffle(),
            needed == (self@.cards_dealt >= self@.cut_card_position),
    {
        self.cards.len() <= 52 * self.num_decks - self.cut_card_position
    }

    /// Throws the shoe away and builds a new one of the same size, shuffled by the randomness
    /// that the last shuffle has left behind.
    pub fn reshuffle(&mut self)
        requires
            old(self).wf(),
        ensures
            final(self)@.is_fresh(old(self)@.num_decks, old(self)@.randomness),
    {
        *self = Self::shuffled(self.num_decks, self.randomness);
    }

    /// The number of cards still in it.
    pub fn cards_remaining(&self) -> (count: usize)
        ensures
            count == self@.cards.len(),
    {
        self.cards.len()
    }
}

/// Where the cards of a game come from.
pub enum CardSource {
    SingleDeck(Deck),
    Shoe(Shoe),
}

impl CardSource {
    /// The cards still in the source; the last one is dealt next.
    pub open spec fn cards(self) -> Seq<Card> {
        match self {
            CardSource::SingleDeck(deck) => deck@.cards,
            CardSource::Shoe(shoe) => shoe@.cards,
        }
    }

    /// The randomness of the next shuffle of the source.
    pub open spec fn randomness(self) -> Randomness {
        match self {
            CardSource::SingleDeck(deck) => deck@.randomness,
            CardSource::Shoe(shoe) => shoe@.randomness,
        }
    }

    /// A source as its methods keep it: any single deck, and a shoe that is well formed.
    pub open spec fn wf(self) -> bool {
        match self {
            CardSource::SingleDeck(_) => true,
            CardSource::Shoe(shoe) => shoe.wf(),
        }
    }

    /// Whether the source asks to be reshuffled before the next round: a single deck once
    /// fewer than [`SINGLE_DECK_FLOOR`] cards remain, a shoe once its cut card is reached.
    pub open spec fn spec_needs_reshuffle(self) -> bool {
        match self {
            CardSource::SingleDeck(deck) => deck@.cards.len() < SINGLE_DECK_FLOOR,
            CardSource::Shoe(shoe) => shoe@.needs_reshuffle(),
        }
    }

    /// Whether the source is what `before` becomes by dealing its next `count` cards.
    pub open spec fn has_dealt(self, before: CardSource, count: nat) -> bool {
        match (before, self) {
            (CardSource::SingleDeck(b), CardSource::SingleDeck(a)) => {
                &&& count <= b@.cards.len()
                &&& a@ == (DeckView { cards: b@.cards.take(b@.cards.len() - count), ..b@ })
            },
            (CardSource::Shoe(b), CardSource::Shoe(a)) => {
                &&& count <= b@.cards.len()
                &&& a@ == (ShoeView {
                    cards: b@.cards.take(b@.cards.len() - count),
                    cards_dealt: b@.cards_dealt + count,
                    ..b@
                })
            },
            _ => false,
        }
    }

    /// A source that has not changed has dealt nothing.
    pub proof fn lemma_has_dealt_nothing(self)
        ensures
            self.has_dealt(self, 0),
    {
        assert(self.cards().take(self.cards().len() as int) =~= self.cards());
    }

    /// Dealing `first` cards and then `then` more is dealing `first + then` cards. The card
    /// that is dealt next after the first `first` is the one that the source named for that
    /// place before.
    pub proof fn lemma_has_dealt_more(
        self,
        before: CardSource,
        middle: CardSource,
        first: nat,
        then: nat,
    )
        requires
            middle.has_dealt(before, first),
            self.has_dealt(middle, then),
        ensures
            self.has_dealt(before, first + then),
            middle.cards().len() == before.cards().len() - first,
            first < before.cards().len() ==> middle.cards().last() == before.cards()[
                before.cards().len() - 1 - first
            ],
    {
        let all = before.cards();
        assert(all.take(all.len() - first).take(all.len() - first - then) =~= all.take(
            all.len() - first - then,
        ));
    }

    /// A source that does not ask for a reshuffle holds at least six cards, enough for any
    /// round; and a fresh source does not ask for one.
    pub proof fn lemma_reshuffle_check(self, before: CardSource)
        requires
            self.wf(),
        ensures
            !self.spec_needs_reshuffle() ==> self.cards().len() >= SINGLE_DECK_FLOOR,
            self.is_fresh_like(before) ==> !self.spec_needs_reshuffle(),
    {
        match self {
            CardSource::SingleDeck(deck) => {
                deck@.cards.to_multiset_ensures();
                standard_deck().to_multiset_ensures();
            },
            CardSource::Shoe(shoe) => {
                lemma_cut_card_reached(shoe@);
            },
        }
    }

    /// Whether the source is a freshly shuffled one of the same kind and size as `before`,
    /// shuffled by the randomness that `before` held.
    pub open spec fn is_fresh_like(self, before: CardSource) -> bool {
        match (before, self) {
            (CardSource::SingleDeck(b), CardSource::SingleDeck(a)) => {
                &&& a@.cards.to_multiset() == standard_deck().to_multiset()
                &&& a@.cards.len() == 52
                &&& a@.randomness == b@.randomness.spec_advanced()
            },
            (CardSource::Shoe(b), CardSource::Shoe(a)) => a@.is_fresh(
                b@.num_decks,
                b@.randomness,
            ),
            _ => false,
        }
    }

    /// Takes the next card, if one is left.
    pub fn deal(&mut self) -> (card: Option<Card>)
        requires
            old(self).wf(),
        ensures
            final(self).wf(),
            old(self).cards().len() == 0 ==> card.is_none() && final(self).has_dealt(
                *old(self),
                0,
            ),
            old(self).cards().len() > 0 ==> card == Some(old(self).cards().last())
                && final(self).has_dealt(*old(self), 1),
    {
        match self {
            CardSource::SingleDeck(deck) => {
                let ghost before = deck@.cards;
                let card = deck.deal();
                proof {
                    assert(before.take(before.len() as int) =~= before);
                    if before.len() > 0 {
                        assert(before.take(before.len() - 1) =~= before.drop_last());
                    }
                }
                card
            },
            CardSource::Shoe(shoe) => {
                let ghost before = shoe@.cards;
                let card = shoe.deal();
                proof {
                    assert(before.take(before.len() as int) =~= before);
                    if before.len() > 0 {
                        assert(before.take(before.len() - 1) =~= before.drop_last());
                    }
                }
                card
            },
        }
    }

    /// Whether the source asks to be reshuffled before the next round.
    pub fn needs_reshuffle(&self) -> (needed: bool)
        requires
            self.wf(),
        ensures
            needed == self.spec_needs_reshuffle(),
    {
        match self {
            CardSource::SingleDeck(deck) => deck.cards_remaining() < SINGLE_DECK_FLOOR,
            CardSource::Shoe(shoe) => shoe.needs_reshuffle(),
        }
    }

    /// Replaces the source by a freshly shuffled one of the same kind and size.
    pub fn reshuffle(&mut self)
        requires
            old(self).wf(),
        ensures
            final(self).wf(),
            final(self).is_fresh_like(*old(self)),
    {
        match self {
            CardSource::SingleDeck(deck) => {
                *deck = Deck::fresh(deck.randomness);
                deck.shuffle();
            },
            CardSource::Shoe(shoe) => shoe.reshuffle(),
        }
    }

    /// The number of cards still in the source.
    pub fn cards_remaining(&self) -> (count: usize)
        ensures
            count == self.cards().len(),
    {
        match self {
            CardSource::SingleDeck(deck) => deck.cards_remaining(),
            CardSource::Shoe(shoe) => shoe.cards_remaining(),
        }
    }
}

} // verus!
