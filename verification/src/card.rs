//! The cards of the game and the hands they are held in.

use vstd::prelude::*;
use vstd::set_lib::lemma_int_range;
use vstd::set_lib::lemma_len_subset;
use vstd::set_lib::lemma_map_size;
use vstd::set_lib::set_int_range;
use vstd::string::StringExecFns;

pub mod containers;

verus! {

#[derive(Debug, Clone, PartialEq, Eq, Hash)]
pub enum SuitError {
    InvalidName(String),
    InvalidIndex(u8),
}

#[derive(Debug, Clone, PartialEq, Eq, Hash)]
pub enum RankError {
    InvalidName(String),
    InvalidIndex(u8),
}

#[derive(Debug, Clone, PartialEq, Eq, Hash)]
pub enum CardError {
    Suit(SuitError),
    Rank(RankError),
}

impl From<SuitError> for CardError {
    fn from(error: SuitError) -> (converted: Self) {
        CardError::Suit(error)
    }
}

impl vstd::std_specs::convert::FromSpecImpl<SuitError> for CardError {
    open spec fn obeys_from_spec() -> bool {
        true
    }

    open spec fn from_spec(error: SuitError) -> Self {
        CardError::Suit(error)
    }
}

impl From<RankError> for CardError {
    fn from(error: RankError) -> (converted: Self) {
        CardError::Rank(error)
    }
}

impl vstd::std_specs::convert::FromSpecImpl<RankError> for CardError {
    open spec fn obeys_from_spec() -> bool {
        true
    }

    open spec fn from_spec(error: RankError) -> Self {
        CardError::Rank(error)
    }
}

/// The four suits, in rising order.
#[derive(Debug, Clone, Copy, PartialEq, Eq, Hash, PartialOrd, Ord, Structural)]
pub enum Suit {
    Clubs,
    Diamonds,
    Hearts,
    Spades,
}

/// How many suits there are.
pub const SUIT_COUNT: u8 = 4;

/// How many ranks there are.
pub const RANK_COUNT: u8 = 13;

/// How many cards there are.
pub const CARD_COUNT: u8 = 52;

impl Suit {
    /// The place of the suit among the suits, from 0.
    pub open spec fn spec_index(self) -> u8 {
        match self {
            Suit::Clubs => 0,
            Suit::Diamonds => 1,
            Suit::Hearts => 2,
            Suit::Spades => 3,
        }
    }

    /// The suit at the place `idx`.
    pub open spec fn at(idx: u8) -> Suit {
        if idx == 0 {
            Suit::Clubs
        } else if idx == 1 {
            Suit::Diamonds
        } else if idx == 2 {
            Suit::Hearts
        } else {
            Suit::Spades
        }
    }

    /// The name of the suit.
    pub open spec fn name(self) -> Seq<char> {
        match self {
            Suit::Clubs => "clubs"@,
            Suit::Diamonds => "diamonds"@,
            Suit::Hearts => "hearts"@,
            Suit::Spades => "spades"@,
        }
    }

    #[verifier::when_used_as_spec(spec_index)]
    pub fn index(self) -> (index: u8)
        ensures
            index == self.spec_index(),
            index < SUIT_COUNT,
    {
        match self {
            Suit::Clubs => 0,
            Suit::Diamonds => 1,
            Suit::Hearts => 2,
            Suit::Spades => 3,
        }
    }

    pub fn symbol(&self) -> (symbol: char)
        ensures
            symbol == match *self {
                Suit::Clubs => '♣',
                Suit::Diamonds => '♦',
                Suit::Hearts => '♥',
                Suit::Spades => '♠',
            },
    {
        match self {
            Suit::Clubs => '♣',
            Suit::Diamonds => '♦',
            Suit::Hearts => '♥',
            Suit::Spades => '♠',
        }
    }

    /// The suit at the place `idx`, where there is one.
    pub fn try_from(idx: u8) -> (suit: Result<Suit, SuitError>)
        ensures
            idx < SUIT_COUNT ==> suit == Ok::<Suit, SuitError>(Suit::at(idx)),
            idx >= SUIT_COUNT ==> suit == Err::<Suit, SuitError>(SuitError::InvalidIndex(idx)),
    {
        match idx {
            0 => Ok(Suit::Clubs),
            1 => Ok(Suit::Diamonds),
            2 => Ok(Suit::Hearts),
            3 => Ok(Suit::Spades),
            _ => Err(SuitError::InvalidIndex(idx)),
        }
    }

    /// The suit with the name `s`, where there is one.
    pub fn from_str(s: &str) -> (suit: Result<Suit, SuitError>)
        ensures
            match suit {
                Ok(suit) => s@ == suit.name(),
                Err(error) => {
                    &&& error matches SuitError::InvalidName(name)
                    &&& name@ == s@
                    &&& forall|suit: Suit| s@ != #[trigger] suit.name()
                },
            },
    {
        let name = s.to_owned();
        if name == "clubs".to_owned() {
            Ok(Suit::Clubs)
        } else if name == "diamonds".to_owned() {
            Ok(Suit::Diamonds)
        } else if name == "hearts".to_owned() {
            Ok(Suit::Hearts)
        } else if name == "spades".to_owned() {
            Ok(Suit::Spades)
        } else {
            Err(SuitError::InvalidName(name))
        }
    }

    /// The name of the suit.
    pub fn to_string(&self) -> (name: String)
        ensures
            name@ == self.name(),
    {
        match self {
            Suit::Clubs => "clubs".to_owned(),
            Suit::Diamonds => "diamonds".to_owned(),
            Suit::Hearts => "hearts".to_owned(),
            Suit::Spades => "spades".to_owned(),
        }
    }
}

impl From<Suit> for u8 {
    fn from(suit: Suit) -> (index: u8) {
        suit.index()
    }
}

impl vstd::std_specs::convert::FromSpecImpl<Suit> for u8 {
    open spec fn obeys_from_spec() -> bool {
        true
    }

    open spec fn from_spec(suit: Suit) -> u8 {
        suit.spec_index()
    }
}

/// The thirteen ranks, in rising order.
#[derive(Debug, Clone, Copy, PartialEq, Eq, Hash, PartialOrd, Ord, Structural)]
pub enum Rank {
    Num2,
    Num3,
    Num4,
    Num5,
    Num6,
    Num7,
    Num8,
    Num9,
    Num10,
    Jack,
    Queen,
    King,
    Ace,
}

impl Rank {
    /// The place of the rank among the ranks, from 0.
    pub open spec fn spec_index(self) -> u8 {
        match self {
            Rank::Num2 => 0,
            Rank::Num3 => 1,
            Rank::Num4 => 2,
            Rank::Num5 => 3,
            Rank::Num6 => 4,
            Rank::Num7 => 5,
            Rank::Num8 => 6,
            Rank::Num9 => 7,
            Rank::Num10 => 8,
            Rank::Jack => 9,
            Rank::Queen => 10,
            Rank::King => 11,
            Rank::Ace => 12,
        }
    }

    /// The rank at the place `idx`.
    pub open spec fn at(idx: u8) -> Rank {
        if idx == 0 {
            Rank::Num2
        } else if idx == 1 {
            Rank::Num3
        } else if idx == 2 {
            Rank::Num4
        } else if idx == 3 {
            Rank::Num5
        } else if idx == 4 {
            Rank::Num6
        } else if idx == 5 {
            Rank::Num7
        } else if idx == 6 {
            Rank::Num8
        } else if idx == 7 {
            Rank::Num9
        } else if idx == 8 {
            Rank::Num10
        } else if idx == 9 {
            Rank::Jack
        } else if idx == 10 {
            Rank::Queen
        } else if idx == 11 {
            Rank::King
        } else {
            Rank::Ace
        }
    }

    /// The name of the rank.
    pub open spec fn name(self) -> Seq<char> {
        match self {
            Rank::Num2 => "2"@,
            Rank::Num3 => "3"@,
            Rank::Num4 => "4"@,
            Rank::Num5 => "5"@,
            Rank::Num6 => "6"@,
            Rank::Num7 => "7"@,
            Rank::Num8 => "8"@,
            Rank::Num9 => "9"@,
            Rank::Num10 => "10"@,
            Rank::Jack => "jack"@,
            Rank::Queen => "queen"@,
            Rank::King => "king"@,
            Rank::Ace => "ace"@,
        }
    }

    #[verifier::when_used_as_spec(spec_index)]
    pub fn index(self) -> (index: u8)
        ensures
            index == self.spec_index(),
            index < RANK_COUNT,
    {
        match self {
            Rank::Num2 => 0,
            Rank::Num3 => 1,
            Rank::Num4 => 2,
            Rank::Num5 => 3,
            Rank::Num6 => 4,
            Rank::Num7 => 5,
            Rank::Num8 => 6,
            Rank::Num9 => 7,
            Rank::Num10 => 8,
            Rank::Jack => 9,
            Rank::Queen => 10,
            Rank::King => 11,
            Rank::Ace => 12,
        }
    }

    pub fn symbol(&self) -> (symbol: char)
        ensures
            symbol == match *self {
                Rank::Num2 => '2',
                Rank::Num3 => '3',
                Rank::Num4 => '4',
                Rank::Num5 => '5',
                Rank::Num6 => '6',
                Rank::Num7 => '7',
                Rank::Num8 => '8',
                Rank::Num9 => '9',
                Rank::Num10 => '0',
                Rank::Jack => 'J',
                Rank::Queen => 'Q',
                Rank::King => 'K',
                Rank::Ace => 'A',
            },
    {
        match self {
            Rank::Num2 => '2',
            Rank::Num3 => '3',
            Rank::Num4 => '4',
            Rank::Num5 => '5',
            Rank::Num6 => '6',
            Rank::Num7 => '7',
            Rank::Num8 => '8',
            Rank::Num9 => '9',
            Rank::Num10 => '0',
            Rank::Jack => 'J',
            Rank::Queen => 'Q',
            Rank::King => 'K',
            Rank::Ace => 'A',
        }
    }

    /// The rank at the place `idx`, where there is one.
    pub fn try_from(idx: u8) -> (rank: Result<Rank, RankError>)
        ensures
            idx < RANK_COUNT ==> rank == Ok::<Rank, RankError>(Rank::at(idx)),
            idx >= RANK_COUNT ==> rank == Err::<Rank, RankError>(RankError::InvalidIndex(idx)),
    {
        match idx {
            0 => Ok(Rank::Num2),
            1 => Ok(Rank::Num3),
            2 => Ok(Rank::Num4),
            3 => Ok(Rank::Num5),
            4 => Ok(Rank::Num6),
            5 => Ok(Rank::Num7),
            6 => Ok(Rank::Num8),
            7 => Ok(Rank::Num9),
            8 => Ok(Rank::Num10),
            9 => Ok(Rank::Jack),
            10 => Ok(Rank::Queen),
            11 => Ok(Rank::King),
            12 => Ok(Rank::Ace),
            _ => Err(RankError::InvalidIndex(idx)),
        }
    }

    /// The rank with the name `s`, where there is one.
    pub fn from_str(s: &str) -> (rank: Result<Rank, RankError>)
        ensures
            match rank {
                Ok(rank) => s@ == rank.name(),
                Err(error) => {
                    &&& error matches RankError::InvalidName(name)
                    &&& name@ == s@
                    &&& forall|rank: Rank| s@ != #[trigger] rank.name()
                },
            },
    {
        let name = s.to_owned();
        if name == "2".to_owned() {
            Ok(Rank::Num2)
        } else if name == "3".to_owned() {
            Ok(Rank::Num3)
        } else if name == "4".to_owned() {
            Ok(Rank::Num4)
        } else if name == "5".to_owned() {
            Ok(Rank::Num5)
        } else if name == "6".to_owned() {
            Ok(Rank::Num6)
        } else if name == "7".to_owned() {
            Ok(Rank::Num7)
        } else if name == "8".to_owned() {
            Ok(Rank::Num8)
        } else if name == "9".to_owned() {
            Ok(Rank::Num9)
        } else if name == "10".to_owned() {
            Ok(Rank::Num10)
        } else if name == "jack".to_owned() {
            Ok(Rank::Jack)
        } else if name == "queen".to_owned() {
            Ok(Rank::Queen)
        } else if name == "king".to_owned() {
            Ok(Rank::King)
        } else if name == "ace".to_owned() {
            Ok(Rank::Ace)
        } else {
            Err(RankError::InvalidName(name))
        }
    }

    /// The name of the rank.
    pub fn to_string(&self) -> (name: String)
        ensures
            name@ == self.name(),
    {
        match self {
            Rank::Num2 => "2".to_owned(),
            Rank::Num3 => "3".to_owned(),
            Rank::Num4 => "4".to_owned(),
            Rank::Num5 => "5".to_owned(),
            Rank::Num6 => "6".to_owned(),
            Rank::Num7 => "7".to_owned(),
            Rank::Num8 => "8".to_owned(),
            Rank::Num9 => "9".to_owned(),
            Rank::Num10 => "10".to_owned(),
            Rank::Jack => "jack".to_owned(),
            Rank::Queen => "queen".to_owned(),
            Rank::King => "king".to_owned(),
            Rank::Ace => "ace".to_owned(),
        }
    }
}

impl From<Rank> for u8 {
    fn from(rank: Rank) -> (index: u8) {
        rank.index()
    }
}

impl vstd::std_specs::convert::FromSpecImpl<Rank> for u8 {
    open spec fn obeys_from_spec() -> bool {
        true
    }

    open spec fn from_spec(rank: Rank) -> u8 {
        rank.spec_index()
    }
}

/// A card: a rank of a suit.
#[derive(Debug, Clone, Copy, PartialEq, Eq, Hash, PartialOrd, Ord, Structural)]
pub struct Card {
    pub suit: Suit,
    pub rank: Rank,
}

impl Card {
    /// The place of the card among the cards, from 0: the suits one after
    /// the other, each in the order of its ranks.
    pub open spec fn spec_index(self) -> u8 {
        (self.suit.spec_index() * RANK_COUNT + self.rank.spec_index()) as u8
    }

    /// The card at the place `idx`.
    pub open spec fn at(idx: u8) -> Card {
        Card { suit: Suit::at(idx / RANK_COUNT), rank: Rank::at(idx % RANK_COUNT) }
    }

    /// The card written out: its rank, then its suit.
    pub open spec fn text(self) -> Seq<char> {
        self.rank.name() + " of "@ + self.suit.name()
    }

    #[verifier::when_used_as_spec(spec_index)]
    pub fn index(self) -> (index: u8)
        ensures
            index == self.spec_index(),
            index == self.suit.spec_index() * RANK_COUNT + self.rank.spec_index(),
            index < CARD_COUNT,
    {
        self.suit.index() * RANK_COUNT + self.rank.index()
    }

    /// The card at the place `idx`, where there is one.
    pub fn try_from(idx: u8) -> (card: Result<Card, CardError>)
        ensures
            idx < CARD_COUNT ==> card == Ok::<Card, CardError>(Card::at(idx)),
            idx >= CARD_COUNT ==> card == Err::<Card, CardError>(
                CardError::Suit(SuitError::InvalidIndex(idx / RANK_COUNT)),
            ),
    {
        let suit = match Suit::try_from(idx / RANK_COUNT) {
            Ok(suit) => suit,
            Err(error) => {
                return Err(CardError::Suit(error));
            },
        };
        let rank = match Rank::try_from(idx % RANK_COUNT) {
            Ok(rank) => rank,
            Err(error) => {
                return Err(CardError::Rank(error));
            },
        };
        Ok(Self { suit, rank })
    }

    /// The card written out: its rank, then its suit.
    pub fn to_string(&self) -> (text: String)
        ensures
            text@ == self.text(),
    {
        let suit = self.suit.to_string();
        self.rank.to_string().concat(" of ").concat(suit.as_str())
    }
}

/// Two cards at the same place are the same card.
pub proof fn lemma_index_tells_cards_apart(a: Card, b: Card)
    requires
        a.spec_index() == b.spec_index(),
    ensures
        a == b,
{
}

/// Every card has a place below the number of cards, and is the card at
/// its place.
pub proof fn lemma_card_at_its_index(card: Card)
    ensures
        card.spec_index() < CARD_COUNT,
        Card::at(card.spec_index()) == card,
{
}

/// The card at a place below the number of cards has that place.
pub proof fn lemma_index_of_card_at(idx: u8)
    requires
        idx < CARD_COUNT,
    ensures
        Card::at(idx).spec_index() == idx,
{
}

/// The cards whose places are in `indices`.
pub open spec fn cards_at(indices: Set<u8>) -> Set<Card> {
    Set::new(|card: Card| indices.contains(card.spec_index()))
}

/// As many cards have their places in a finite set of places below the
/// number of cards as the set has places.
pub proof fn lemma_cards_at_count(indices: Set<u8>)
    requires
        indices.finite(),
        forall|idx: u8| indices.contains(idx) ==> idx < CARD_COUNT,
    ensures
        cards_at(indices).finite(),
        cards_at(indices).len() == indices.len(),
{
    let at = |idx: u8| Card::at(idx);
    assert forall|card: Card| #[trigger] cards_at(indices).contains(card) implies indices.map(
        at,
    ).contains(card) by {
        lemma_card_at_its_index(card);
        assert(indices.contains(card.spec_index()) && at(card.spec_index()) == card);
    }
    assert forall|card: Card| #[trigger] indices.map(at).contains(card) implies cards_at(
        indices,
    ).contains(card) by {
        let idx = choose|idx: u8| indices.contains(idx) && at(idx) == card;
        lemma_index_of_card_at(idx);
    }
    assert(indices.map(at) =~= cards_at(indices));
    assert forall|a: u8, b: u8|
        indices.contains(a) && indices.contains(b) && #[trigger] at(a) == #[trigger] at(
            b,
        ) implies a == b by {
        lemma_index_of_card_at(a);
        lemma_index_of_card_at(b);
    }
    lemma_map_size(indices, cards_at(indices), at);
}

/// No finite set of cards holds more cards than there are.
pub proof fn lemma_at_most_all_cards(cards: Set<Card>)
    requires
        cards.finite(),
    ensures
        cards.len() <= CARD_COUNT,
{
    let place = |card: Card| card.spec_index() as int;
    let places = cards.map(place);
    assert forall|a: Card, b: Card|
        cards.contains(a) && cards.contains(b) && #[trigger] place(a) == #[trigger] place(
            b,
        ) implies a == b by {
        lemma_index_tells_cards_apart(a, b);
    }
    lemma_map_size(cards, places, place);
    assert forall|idx: int| #[trigger] places.contains(idx) implies set_int_range(0, 52).contains(
        idx,
    ) by {
        let card = choose|card: Card| cards.contains(card) && place(card) == idx;
        lemma_card_at_its_index(card);
    }
    lemma_int_range(0, 52);
    lemma_len_subset(places, set_int_range(0, 52));
}

impl From<Card> for u8 {
    fn from(card: Card) -> (index: u8) {
        card.index()
    }
}

impl vstd::std_specs::convert::FromSpecImpl<Card> for u8 {
    open spec fn obeys_from_spec() -> bool {
        true
    }

    open spec fn from_spec(card: Card) -> u8 {
        card.spec_index()
    }
}

/// A card as it lies on the table: face down or face up.
#[derive(Debug, Clone, Copy, PartialEq, Eq, Hash, Structural)]
pub enum CardVariant {
    Back,
    Front(Card),
}

impl CardVariant {
    /// The side that shows, written out.
    pub fn to_string(&self) -> (text: String)
        ensures
            text@ == match *self {
                CardVariant::Back => "Back"@,
                CardVariant::Front(card) => card.text(),
            },
    {
        match self {
            CardVariant::Back => "Back".to_owned(),
            CardVariant::Front(card) => card.to_string(),
        }
    }
}

/// A card as a part of the scene.
#[derive(Debug, Clone, Copy, PartialEq, Eq, Hash, Structural)]
pub struct CardComponent(pub Card);

} // verus!
