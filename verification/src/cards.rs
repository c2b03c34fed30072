//! Playing cards: suits, faces, and the card value model.

use vstd::prelude::*;
use vstd::string::StringExecFns;

verus! {

/// Rendering to a long, human-readable string.
pub trait AsPrettyString {
    /// The value as a long, human-readable string.
    fn as_pretty_string(&self) -> String;
}

/// One of the four French suits.
#[derive(Debug, Clone, Copy, PartialEq, Eq, Structural, PartialOrd, Ord)]
pub enum CardSuit {
    Hearts,
    Diamonds,
    Spades,
    Clubs,
}

/// The face of a card: a numeric rank from 2 to 10, or a named rank.
#[derive(Debug, Clone, Copy, PartialEq, Eq, Structural, PartialOrd, Ord)]
pub enum CardFace {
    Number(u8),
    Jack,
    King,
    Queen,
    Ace,
}

/// Error carrying a rank value outside the legal range 1..=13.
#[derive(Debug, PartialEq, Eq, Structural)]
pub struct CardValueError(pub u8);

/// A face is well formed when a numeric rank lies in 2..=10; the named
/// ranks (Ace, Jack, Queen, King) cover 1 and 11..=13.
pub open spec fn face_valid(face: CardFace) -> bool {
    match face {
        CardFace::Number(v) => 2 <= v <= 10,
        _ => true,
    }
}

/// The face built from a numeric rank 1..=13.
pub open spec fn face_of_rank(rank: u8) -> CardFace {
    if rank == 1 {
        CardFace::Ace
    } else if rank == 11 {
        CardFace::Jack
    } else if rank == 12 {
        CardFace::Queen
    } else if rank == 13 {
        CardFace::King
    } else {
        CardFace::Number(rank)
    }
}

/// The base point value of a face: numeric ranks count face value, court
/// cards count 10, and an ace counts 1 before the hand resolves it.
pub open spec fn face_points(face: CardFace) -> nat {
    match face {
        CardFace::Number(v) => v as nat,
        CardFace::Jack => 10,
        CardFace::King => 10,
        CardFace::Queen => 10,
        CardFace::Ace => 1,
    }
}

impl CardFace {
    /// Builds the face for a numeric rank, rejecting values outside 1..=13.
    pub fn try_from(value: u8) -> (r: Result<Self, CardValueError>)
        ensures
            1 <= value <= 13 ==> r == Ok::<Self, CardValueError>(face_of_rank(value)),
            !(1 <= value <= 13) ==> r == Err::<Self, CardValueError>(CardValueError(value)),
    {
        match value {
            1 => Ok(Self::Ace),
            v if 2 <= v && v <= 10 => Ok(Self::Number(v)),
            11 => Ok(Self::Jack),
            12 => Ok(Self::Queen),
            13 => Ok(Self::King),
            e => Err(CardValueError(e)),
        }
    }
}

/// A standard playing card (without Jokers).
///
/// Contains a Suit and a Face.
#[derive(Debug, Clone, Copy, PartialEq, Eq, Structural, PartialOrd, Ord)]
pub struct Card {
    /// The card's suit.
    pub suit: CardSuit,
    /// The card's face.
    pub face: CardFace,
}

/// A card is well formed when its face is.
pub open spec fn card_valid(card: Card) -> bool {
    face_valid(card.face)
}

impl Card {
    /// Builds a card from a face and a suit.
    pub fn new(face: CardFace, suit: CardSuit) -> (r: Self)
        ensures
            r == (Card { suit, face }),
    {
        Self { suit, face }
    }

    /// The card's face.
    pub fn face(&self) -> (r: &CardFace)
        ensures
            *r == self.face,
    {
        &self.face
    }

    /// The card's suit.
    pub fn suit(&self) -> (r: &CardSuit)
        ensures
            *r == self.suit,
    {
        &self.suit
    }
}

impl CardSuit {
    /// The suit's full name.
    pub fn name(&self) -> (r: &'static str)
        ensures
            r@ == suit_name(*self),
    {
        match self {
            CardSuit::Hearts => "Hearts",
            CardSuit::Diamonds => "Diamonds",
            CardSuit::Spades => "Spades",
            CardSuit::Clubs => "Clubs",
        }
    }

    /// The suit's one-letter ASCII abbreviation.
    pub fn letter(&self) -> (r: &'static str)
        ensures
            r@ == suit_letter(*self),
    {
        match self {
            CardSuit::Hearts => "H",
            CardSuit::Diamonds => "D",
            CardSuit::Spades => "S",
            CardSuit::Clubs => "C",
        }
    }

    /// The suit's symbol.
    pub fn symbol(&self) -> (r: &'static str)
        ensures
            r@ == suit_symbol(*self),
    {
        match self {
            CardSuit::Hearts => "\u{2665}",
            CardSuit::Diamonds => "\u{2666}",
            CardSuit::Spades => "\u{2660}",
            CardSuit::Clubs => "\u{2663}",
        }
    }
}

/// The full name of a suit.
pub open spec fn suit_name(suit: CardSuit) -> Seq<char> {
    match suit {
        CardSuit::Hearts => "Hearts"@,
        CardSuit::Diamonds => "Diamonds"@,
        CardSuit::Spades => "Spades"@,
        CardSuit::Clubs => "Clubs"@,
    }
}

/// The one-letter ASCII abbreviation of a suit.
pub open spec fn suit_letter(suit: CardSuit) -> Seq<char> {
    match suit {
        CardSuit::Hearts => "H"@,
        CardSuit::Diamonds => "D"@,
        CardSuit::Spades => "S"@,
        CardSuit::Clubs => "C"@,
    }
}

/// The symbol of a suit.
pub open spec fn suit_symbol(suit: CardSuit) -> Seq<char> {
    match suit {
        CardSuit::Hearts => "\u{2665}"@,
        CardSuit::Diamonds => "\u{2666}"@,
        CardSuit::Spades => "\u{2660}"@,
        CardSuit::Clubs => "\u{2663}"@,
    }
}

/// The decimal text of a numeric rank 2..=10.
pub open spec fn number_text(v: int) -> Seq<char> {
    if v == 2 {
        "2"@
    } else if v == 3 {
        "3"@
    } else if v == 4 {
        "4"@
    } else if v == 5 {
        "5"@
    } else if v == 6 {
        "6"@
    } else if v == 7 {
        "7"@
    } else if v == 8 {
        "8"@
    } else if v == 9 {
        "9"@
    } else if v == 10 {
        "10"@
    } else {
        ""@
    }
}

/// The full name of a face: a named rank's name, or the rank's digits.
pub open spec fn face_name(face: CardFace) -> Seq<char> {
    match face {
        CardFace::Number(v) => number_text(v as int),
        CardFace::Jack => "Jack"@,
        CardFace::Queen => "Queen"@,
        CardFace::King => "King"@,
        CardFace::Ace => "Ace"@,
    }
}

/// The short form of a face: a named rank's initial, or the rank's digits.
pub open spec fn face_letter(face: CardFace) -> Seq<char> {
    match face {
        CardFace::Number(v) => number_text(v as int),
        CardFace::Jack => "J"@,
        CardFace::Queen => "Q"@,
        CardFace::King => "K"@,
        CardFace::Ace => "A"@,
    }
}

impl CardFace {
    /// The face's full name.
    pub fn name(&self) -> (r: &'static str)
        requires
            face_valid(*self),
        ensures
            r@ == face_name(*self),
    {
        match self {
            CardFace::Number(v) => match *v {
                2 => "2",
                3 => "3",
                4 => "4",
                5 => "5",
                6 => "6",
                7 => "7",
                8 => "8",
                9 => "9",
                _ => "10",
            },
            CardFace::Jack => "Jack",
            CardFace::Queen => "Queen",
            CardFace::King => "King",
            CardFace::Ace => "Ace",
        }
    }

    /// The face's short form.
    pub fn letter(&self) -> (r: &'static str)
        requires
            face_valid(*self),
        ensures
            r@ == face_letter(*self),
    {
        match self {
            CardFace::Number(v) => match *v {
                2 => "2",
                3 => "3",
                4 => "4",
                5 => "5",
                6 => "6",
                7 => "7",
                8 => "8",
                9 => "9",
                _ => "10",
            },
            CardFace::Jack => "J",
            CardFace::Queen => "Q",
            CardFace::King => "K",
            CardFace::Ace => "A",
        }
    }
}

/// A face's base point value, as the `u8` that `From` hands back; it
/// agrees with [`face_points`] on every face.
pub open spec fn face_value(face: CardFace) -> u8 {
    match face {
        CardFace::Number(v) => v,
        CardFace::Jack => 10,
        CardFace::King => 10,
        CardFace::Queen => 10,
        CardFace::Ace => 1,
    }
}

impl From<CardFace> for u8 {
    /// A face's base point value.
    fn from(value: CardFace) -> (r: u8) {
        match value {
            CardFace::Number(v) => v,
            CardFace::Jack => 10,
            CardFace::King => 10,
            CardFace::Queen => 10,
            CardFace::Ace => 1,
        }
    }
}

impl vstd::std_specs::convert::FromSpecImpl<CardFace> for u8 {
    open spec fn obeys_from_spec() -> bool {
        true
    }

    open spec fn from_spec(v: CardFace) -> u8 {
        face_value(v)
    }
}

impl From<Card> for u8 {
    /// A card's base point value: that of its face.
    fn from(value: Card) -> (r: u8) {
        u8::from(value.face)
    }
}

impl vstd::std_specs::convert::FromSpecImpl<Card> for u8 {
    open spec fn obeys_from_spec() -> bool {
        true
    }

    open spec fn from_spec(v: Card) -> u8 {
        face_value(v.face)
    }
}

/// Relies on rand's `random_range`: a uniform draw from the given closed
/// range, which the bound on the arguments keeps non-empty.
#[verifier::external_body]
fn random_in_range(lo: u8, hi: u8) -> (r: u8)
    requires
        lo <= hi,
    ensures
        lo <= r <= hi,
{
    rand::random_range(lo..=hi)
}

impl Card {
    /// Generate a card with a random face and suit.
    ///
    /// The rank is drawn from 1..=12, so the card is always built and is
    /// never a King.
    pub fn random() -> (r: Result<Self, CardValueError>)
        ensures
            r is Ok,
            r matches Ok(c) ==> {
                &&& card_valid(c)
                &&& !(c.face is King)
                &&& exists|v: u8| 1 <= v <= 12 && c.face == face_of_rank(v)
            },
    {
        let suit = match random_in_range(1, 4) {
            1 => CardSuit::Hearts,
            2 => CardSuit::Diamonds,
            3 => CardSuit::Spades,
            4 => CardSuit::Clubs,
            e => { return Err(CardValueError(e)) },
        };

        let rank = random_in_range(1, 12);
        let face = match CardFace::try_from(rank) {
            Ok(f) => f,
            Err(e) => { return Err(e) },
        };

        proof {
            assert(1 <= rank <= 12 && face == face_of_rank(rank));
        }
        Ok(Self { suit, face })
    }

    /// The card as "<face> of <suit>", written out in full.
    pub fn as_pretty_string(&self) -> (r: String)
        requires
            card_valid(*self),
        ensures
            r@ == face_name(self.face) + " of "@ + suit_name(self.suit),
    {
        String::from_str(self.face.name()).concat(" of ").concat(self.suit.name())
    }

    /// The card as its face's short form and its suit's letter, in ASCII.
    pub fn ascii_string(&self) -> (r: String)
        requires
            card_valid(*self),
        ensures
            r@ == face_letter(self.face) + suit_letter(self.suit),
    {
        String::from_str(self.face.letter()).concat(self.suit.letter())
    }

    /// The card as its face's short form and its suit's symbol.
    pub fn symbol_string(&self) -> (r: String)
        requires
            card_valid(*self),
        ensures
            r@ == face_letter(self.face) + suit_symbol(self.suit),
    {
        String::from_str(self.face.letter()).concat(self.suit.symbol())
    }
}

} // verus!
