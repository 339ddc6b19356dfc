//! Hands of cards: one that keeps the order in which the cards came, and
//! one that keeps them in the order of the cards.

use std::collections::BTreeSet;

use vstd::prelude::*;

use crate::card::cards_at;
use crate::card::lemma_at_most_all_cards;
use crate::card::lemma_card_at_its_index;
use crate::card::lemma_cards_at_count;
use crate::card::lemma_index_of_card_at;
use crate::card::lemma_index_tells_cards_apart;
use crate::card::Card;
use crate::card::CARD_COUNT;

verus! {

broadcast use {vstd::std_specs::btree::group_btree_axioms, vstd::laws_cmp::group_laws_cmp};

/// A hand of cards, in which no card is twice.
pub trait CardContainer: Sized {
    /// The cards of the hand.
    spec fn cards(&self) -> Set<Card>;

    /// Whether the hand is in order.
    spec fn wf(&self) -> bool;

    /// The hand of all cards.
    fn all() -> (all: Self)
        ensures
            all.wf(),
            forall|card: Card| all.cards().contains(card),
    ;

    /// Puts `card` into the hand; a card that is there already stays
    /// once.
    fn add(&mut self, card: Card)
        requires
            old(self).wf(),
        ensures
            final(self).wf(),
            final(self).cards() == old(self).cards().insert(card),
    ;

    /// Takes `card` out of the hand and tells whether it was there.
    fn remove(&mut self, card: &Card) -> (removed: bool)
        requires
            old(self).wf(),
        ensures
            final(self).wf(),
            final(self).cards() == old(self).cards().remove(*card),
            removed == old(self).cards().contains(*card),
    ;

    fn contains(&self, card: &Card) -> (contained: bool)
        requires
            self.wf(),
        ensures
            contained == self.cards().contains(*card),
    ;

    /// How many cards the hand holds.
    fn len(&self) -> (len: u8)
        requires
            self.wf(),
        ensures
            self.cards().finite(),
            len == self.cards().len(),
    ;
}

/// A hand that keeps its cards in the order of the cards.
#[derive(Debug, Clone, PartialEq, Eq)]
pub struct UnorderedCards {
    /// The places of the cards.
    cards: BTreeSet<u8>,
}

impl UnorderedCards {
    /// The places of the cards of the hand.
    pub closed spec fn indices(&self) -> Set<u8> {
        self.cards@
    }

    /// The empty hand.
    pub fn new() -> (hand: Self)
        ensures
            hand.wf(),
            hand.indices() == Set::<u8>::empty(),
            hand.cards() == Set::<Card>::empty(),
    {
        let hand = Self { cards: BTreeSet::new() };
        assert(hand.cards() =~= Set::<Card>::empty());
        hand
    }

    /// The hand of the given cards.
    pub fn from_cards(cards: &Vec<Card>) -> (hand: Self)
        ensures
            hand.wf(),
            hand.cards() == cards@.to_set(),
    {
        let mut hand = Self::new();
        let mut done: usize = 0;
        while done < cards.len()
            invariant
                done <= cards@.len(),
                hand.wf(),
                hand.cards() == cards@.take(done as int).to_set(),
            decreases cards@.len() - done,
        {
            hand.add(cards[done]);
            proof {
                let before = cards@.take(done as int);
                let after = cards@.take(done + 1);
                assert(after =~= before.push(cards@[done as int]));
                assert(after.to_set() =~= before.to_set().insert(cards@[done as int])) by {
                    assert forall|card: Card| after.to_set().contains(card)
                        <==> before.to_set().insert(cards@[done as int]).contains(card) by {
                        if after.contains(card) {
                            let at = choose|at: int| 0 <= at < after.len() && after[at] == card;
                            if at < done {
                                assert(before[at] == card);
                            }
                        }
                        if before.contains(card) {
                            let at = choose|at: int| 0 <= at < before.len() && before[at] == card;
                            assert(after[at] == card);
                        }
                        assert(after[done as int] == cards@[done as int]);
                    }
                }
            }
            done = done + 1;
        }
        assert(cards@.take(done as int) =~= cards@);
        hand
    }

    /// The cards of the hand, in the order of the cards.
    pub fn to_vec(&self) -> (cards: Vec<Card>)
        requires
            self.wf(),
        ensures
            cards@.to_set() == self.cards(),
            forall|i: int, j: int|
                0 <= i < j < cards@.len() ==> cards@[i].spec_index() < cards@[j].spec_index(),
    {
        let mut cards: Vec<Card> = Vec::new();
        let mut idx: u8 = 0;
        while idx < CARD_COUNT
            invariant
                idx <= CARD_COUNT,
                self.wf(),
                forall|i: int| 0 <= i < cards@.len() ==> (#[trigger] cards@[i]).spec_index() < idx,
                forall|i: int, j: int|
                    0 <= i < j < cards@.len() ==> cards@[i].spec_index() < cards@[j].spec_index(),
                forall|card: Card|
                    cards@.contains(card) <==> self.cards().contains(card) && card.spec_index()
                        < idx,
            decreases CARD_COUNT - idx,
        {
            if self.cards.contains(&idx) {
                let card = Card::try_from(idx).unwrap();
                proof {
                    lemma_index_of_card_at(idx);
                    let before = cards@;
                    let after = cards@.push(card);
                    assert forall|other: Card| after.contains(other) <==> self.cards().contains(
                        other,
                    ) && other.spec_index() < idx + 1 by {
                        if after.contains(other) {
                            let at = choose|at: int| 0 <= at < after.len() && after[at] == other;
                            if at < before.len() {
                                assert(before[at] == other);
                                assert(before.contains(other));
                            }
                        }
                        if self.cards().contains(other) && other.spec_index() < idx + 1 {
                            if other.spec_index() < idx {
                                assert(before.contains(other));
                                let at = choose|at: int|
                                    0 <= at < before.len() && before[at] == other;
                                assert(after[at] == other);
                            } else {
                                lemma_index_tells_cards_apart(other, card);
                                assert(after[before.len() as int] == other);
                            }
                        }
                    }
                }
                cards.push(card);
            } else {
                proof {
                    assert forall|other: Card| cards@.contains(other) <==> self.cards().contains(
                        other,
                    ) && other.spec_index() < idx + 1 by {
                        if self.cards().contains(other) && other.spec_index() == idx {
                            assert(false);
                        }
                    }
                }
            }
            idx = idx + 1;
        }
        proof {
            assert forall|card: Card| cards@.to_set().contains(card) <==> self.cards().contains(
                card,
            ) by {
                lemma_card_at_its_index(card);
            }
            assert(cards@.to_set() =~= self.cards());
        }
        cards
    }
}

impl CardContainer for UnorderedCards {
    open spec fn cards(&self) -> Set<Card> {
        cards_at(self.indices())
    }

    open spec fn wf(&self) -> bool {
        &&& self.indices().finite()
        &&& forall|idx: u8| self.indices().contains(idx) ==> idx < CARD_COUNT
    }

    fn all() -> (all: Self) {
        let mut all = Self::new();
        let mut idx: u8 = 0;
        while idx < CARD_COUNT
            invariant
                idx <= CARD_COUNT,
                all.wf(),
                forall|card: Card| card.spec_index() < idx ==> all.cards().contains(card),
            decreases CARD_COUNT - idx,
        {
            let card = Card::try_from(idx).unwrap();
            proof {
                lemma_index_of_card_at(idx);
                assert forall|other: Card| other.spec_index() < idx + 1 implies all.cards().insert(
                    card,
                ).contains(other) by {
                    if other.spec_index() == idx {
                        lemma_index_tells_cards_apart(other, card);
                    }
                }
            }
            all.add(card);
            idx = idx + 1;
        }
        proof {
            assert forall|card: Card| all.cards().contains(card) by {
                lemma_card_at_its_index(card);
            }
        }
        all
    }

    fn add(&mut self, card: Card) {
        let idx = card.index();
        self.cards.insert(idx);
        proof {
            assert forall|other: Card| self.cards().contains(other) <==> old(
                self,
            ).cards().insert(card).contains(other) by {
                if other.spec_index() == idx {
                    lemma_index_tells_cards_apart(other, card);
                }
            }
            assert(self.cards() =~= old(self).cards().insert(card));
        }
    }

    fn remove(&mut self, card: &Card) -> (removed: bool) {
        let idx = card.index();
        let removed = self.cards.remove(&idx);
        proof {
            assert forall|other: Card| self.cards().contains(other) <==> old(
                self,
            ).cards().remove(*card).contains(other) by {
                if other.spec_index() == idx {
                    lemma_index_tells_cards_apart(other, *card);
                }
            }
            assert(self.cards() =~= old(self).cards().remove(*card));
        }
        removed
    }

    fn contains(&self, card: &Card) -> (contained: bool) {
        let idx = card.index();
        self.cards.contains(&idx)
    }

    fn len(&self) -> (len: u8) {
        proof {
            lemma_cards_at_count(self.cards@);
            lemma_at_most_all_cards(self.cards());
        }
        let len = self.cards.len();
        u8::try_from(len).unwrap()
    }
}

/// A hand that keeps its cards in the order in which they came.
#[derive(Debug, Clone, PartialEq, Eq)]
pub struct OrderedCards {
    cards: Vec<Card>,
}

impl OrderedCards {
    /// The cards of the hand, in the order in which they came.
    pub closed spec fn order(&self) -> Seq<Card> {
        self.cards@
    }

    /// The empty hand.
    pub fn new() -> (hand: Self)
        ensures
            hand.wf(),
            hand.order() == Seq::<Card>::empty(),
            hand.cards() == Set::<Card>::empty(),
    {
        let hand = Self { cards: Vec::new() };
        assert(hand.cards() =~= Set::<Card>::empty());
        hand
    }

    /// The place of `card` in the hand, where it is there.
    fn position(&self, card: &Card) -> (position: Option<usize>)
        ensures
            match position {
                Some(at) => at < self.order().len() && self.order()[at as int] == *card,
                None => !self.order().contains(*card),
            },
    {
        let mut at: usize = 0;
        while at < self.cards.len()
            invariant
                at <= self.cards@.len(),
                forall|i: int| 0 <= i < at ==> self.cards@[i] != *card,
            decreases self.cards@.len() - at,
        {
            if self.cards[at] == *card {
                return Some(at);
            }
            at = at + 1;
        }
        None
    }

    /// The hand of the given cards, each where it came first.
    pub fn from_cards(cards: &Vec<Card>) -> (hand: Self)
        ensures
            hand.wf(),
            hand.cards() == cards@.to_set(),
    {
        let mut hand = Self::new();
        let mut done: usize = 0;
        while done < cards.len()
            invariant
                done <= cards@.len(),
                hand.wf(),
                hand.cards() == cards@.take(done as int).to_set(),
            decreases cards@.len() - done,
        {
            hand.add(cards[done]);
            proof {
                let before = cards@.take(done as int);
                let after = cards@.take(done + 1);
                assert(after =~= before.push(cards@[done as int]));
                assert(after.to_set() =~= before.to_set().insert(cards@[done as int])) by {
                    assert forall|card: Card| after.to_set().contains(card)
                        <==> before.to_set().insert(cards@[done as int]).contains(card) by {
                        if after.contains(card) {
                            let at = choose|at: int| 0 <= at < after.len() && after[at] == card;
                            if at < done {
                                assert(before[at] == card);
                            }
                        }
                        if before.contains(card) {
                            let at = choose|at: int| 0 <= at < before.len() && before[at] == card;
                            assert(after[at] == card);
                        }
                        assert(after[done as int] == cards@[done as int]);
                    }
                }
            }
            done = done + 1;
        }
        assert(cards@.take(done as int) =~= cards@);
        hand
    }

    /// The cards of the hand, in the order in which they came.
    pub fn into_vec(self) -> (cards: Vec<Card>)
        ensures
            cards@ == self.order(),
    {
        self.cards
    }
}

impl CardContainer for OrderedCards {
    open spec fn cards(&self) -> Set<Card> {
        self.order().to_set()
    }

    open spec fn wf(&self) -> bool {
        self.order().no_duplicates()
    }

    fn all() -> (all: Self) {
        let mut all = Self::new();
        let mut idx: u8 = 0;
        while idx < CARD_COUNT
            invariant
                idx <= CARD_COUNT,
                all.wf(),
                forall|card: Card| card.spec_index() < idx ==> all.cards().contains(card),
            decreases CARD_COUNT - idx,
        {
            let card = Card::try_from(idx).unwrap();
            proof {
                lemma_index_of_card_at(idx);
                assert forall|other: Card| other.spec_index() < idx + 1 implies all.cards().insert(
                    card,
                ).contains(other) by {
                    if other.spec_index() == idx {
                        lemma_index_tells_cards_apart(other, card);
                    }
                }
            }
            all.add(card);
            idx = idx + 1;
        }
        proof {
            assert forall|card: Card| all.cards().contains(card) by {
                lemma_card_at_its_index(card);
            }
        }
        all
    }

    fn add(&mut self, card: Card)
        ensures
            final(self).order() == if old(self).order().contains(card) {
                old(self).order()
            } else {
                old(self).order().push(card)
            },
    {
        match self.position(&card) {
            Some(at) => {
                proof {
                    assert(self.cards@.contains(card));
                    assert(self.cards() =~= old(self).cards().insert(card));
                }
            },
            None => {
                self.cards.push(card);
                proof {
                    let before = old(self).cards@;
                    let after = self.cards@;
                    assert(after =~= before.push(card));
                    assert forall|other: Card| after.to_set().contains(other)
                        <==> before.to_set().insert(card).contains(other) by {
                        if after.contains(other) {
                            let at = choose|at: int| 0 <= at < after.len() && after[at] == other;
                            if at < before.len() {
                                assert(before[at] == other);
                            }
                        }
                        if before.contains(other) {
                            let at = choose|at: int| 0 <= at < before.len() && before[at] == other;
                            assert(after[at] == other);
                        }
                        assert(after[before.len() as int] == card);
                    }
                    assert(self.cards() =~= old(self).cards().insert(card));
                }
            },
        }
    }

    fn remove(&mut self, card: &Card) -> (removed: bool)
        ensures
            !removed ==> final(self).order() == old(self).order(),
            removed ==> exists|at: int|
                0 <= at < old(self).order().len() && old(self).order()[at] == *card
                    && final(self).order() == #[trigger] old(self).order().remove(at),
    {
        match self.position(card) {
            Some(at) => {
                self.cards.remove(at);
                proof {
                    let before = old(self).cards@;
                    let after = self.cards@;
                    assert(after =~= before.remove(at as int));
                    assert(before.contains(*card));
                    assert forall|other: Card| after.to_set().contains(other)
                        <==> before.to_set().remove(*card).contains(other) by {
                        if after.contains(other) {
                            let i = choose|i: int| 0 <= i < after.len() && after[i] == other;
                            if i < at {
                                assert(before[i] == other);
                            } else {
                                assert(before[i + 1] == other);
                            }
                        }
                        if before.contains(other) && other != *card {
                            let i = choose|i: int| 0 <= i < before.len() && before[i] == other;
                            if i < at {
                                assert(after[i] == other);
                            } else {
                                assert(after[i - 1] == other);
                            }
                        }
                    }
                    assert(self.cards() =~= old(self).cards().remove(*card));
                }
                true
            },
            None => {
                proof {
                    assert(self.cards() =~= old(self).cards().remove(*card));
                }
                false
            },
        }
    }

    fn contains(&self, card: &Card) -> (contained: bool) {
        self.position(card).is_some()
    }

    fn len(&self) -> (len: u8) {
        proof {
            self.cards@.unique_seq_to_set();
            lemma_at_most_all_cards(self.cards());
        }
        let len = self.cards.len();
        u8::try_from(len).unwrap()
    }
}

} // verus!
