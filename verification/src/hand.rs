//! A hand of cards and its blackjack point total.

use vstd::prelude::*;

use crate::cards::{face_points, Card, CardFace};

verus! {

/// The value one card contributes to a hand: a fixed number of points,
/// or a wild contribution for an ace, which the whole hand resolves.
#[derive(Debug, PartialEq, Eq, Structural, PartialOrd, Ord)]
pub enum ValueInHand {
    /// A fixed number of points.
    Fixed(u8),
    /// An ace, worth 11 or 1 depending on the rest of the hand.
    Wild,
}

/// The value a card contributes to a hand before aces are resolved.
pub open spec fn card_value_in_hand(card: Card) -> ValueInHand {
    match card.face {
        CardFace::Number(v) => ValueInHand::Fixed(v),
        CardFace::Jack => ValueInHand::Fixed(10),
        CardFace::King => ValueInHand::Fixed(10),
        CardFace::Queen => ValueInHand::Fixed(10),
        CardFace::Ace => ValueInHand::Wild,
    }
}

/// The fixed points of one card: its face points, or 0 for an ace.
pub open spec fn fixed_contrib(card: Card) -> nat {
    if card.face is Ace {
        0
    } else {
        face_points(card.face)
    }
}

/// 1 for an ace, 0 for any other card.
pub open spec fn wild_contrib(card: Card) -> nat {
    if card.face is Ace {
        1
    } else {
        0
    }
}

/// The sum of the fixed point values of the non-ace cards of a hand.
pub open spec fn fixed_sum(cards: Seq<Card>) -> nat
    decreases cards.len(),
{
    if cards.len() == 0 {
        0
    } else {
        fixed_sum(cards.drop_last()) + fixed_contrib(cards.last())
    }
}

/// The number of aces in a hand.
pub open spec fn wild_count(cards: Seq<Card>) -> nat
    decreases cards.len(),
{
    if cards.len() == 0 {
        0
    } else {
        wild_count(cards.drop_last()) + wild_contrib(cards.last())
    }
}

/// The blackjack total of a hand: one ace counts 11 when that does not
/// push the total past 21; every other ace, and otherwise every ace,
/// counts 1.
pub open spec fn hand_total(cards: Seq<Card>) -> nat {
    if wild_count(cards) > 0 && fixed_sum(cards) + 10 + wild_count(cards) <= 21 {
        fixed_sum(cards) + 10 + wild_count(cards)
    } else {
        fixed_sum(cards) + wild_count(cards)
    }
}

/// Appending a card adds its fixed and wild contributions to the sums.
pub proof fn lemma_sums_push(cards: Seq<Card>, card: Card)
    ensures
        fixed_sum(cards.push(card)) == fixed_sum(cards) + fixed_contrib(card),
        wild_count(cards.push(card)) == wild_count(cards) + wild_contrib(card),
{
    assert(cards.push(card).drop_last() =~= cards);
    assert(cards.push(card).last() == card);
}

/// The sums of a prefix of a hand never exceed the sums of the whole.
pub proof fn lemma_sums_prefix(cards: Seq<Card>, i: int)
    requires
        0 <= i <= cards.len(),
    ensures
        fixed_sum(cards.take(i)) + wild_count(cards.take(i)) <= fixed_sum(cards) + wild_count(
            cards,
        ),
        fixed_sum(cards.take(i)) <= fixed_sum(cards),
        wild_count(cards.take(i)) <= wild_count(cards),
    decreases cards.len() - i,
{
    if i == cards.len() {
        assert(cards.take(i) =~= cards);
    } else {
        lemma_sums_prefix(cards, i + 1);
        assert(cards.take(i + 1).drop_last() =~= cards.take(i));
        assert(cards.take(i + 1).last() == cards[i]);
    }
}

/// The arithmetic sum of the point values of all cards of a hand.
pub open spec fn points_sum(cards: Seq<Card>) -> nat
    decreases cards.len(),
{
    if cards.len() == 0 {
        0
    } else {
        points_sum(cards.drop_last()) + face_points(cards.last().face)
    }
}

/// Total-value correctness: a hand without aces is worth exactly the
/// arithmetic sum of its cards' fixed point values.
pub proof fn lemma_total_without_aces(cards: Seq<Card>)
    requires
        wild_count(cards) == 0,
    ensures
        hand_total(cards) == points_sum(cards),
        hand_total(cards) == fixed_sum(cards),
    decreases cards.len(),
{
    if cards.len() > 0 {
        lemma_total_without_aces(cards.drop_last());
    }
}

/// Single-ace softness: an ace beside one 10-point card makes 21, in
/// either order, the ace counting 11.
pub proof fn lemma_single_ace_softness(ace: Card, ten: Card)
    requires
        ace.face is Ace,
        !(ten.face is Ace),
        face_points(ten.face) == 10,
    ensures
        hand_total(seq![ace, ten]) == 21,
        hand_total(seq![ten, ace]) == 21,
{
    let empty = Seq::<Card>::empty();
    lemma_sums_push(empty, ace);
    lemma_sums_push(empty.push(ace), ten);
    assert(seq![ace, ten] =~= empty.push(ace).push(ten));
    lemma_sums_push(empty, ten);
    lemma_sums_push(empty.push(ten), ace);
    assert(seq![ten, ace] =~= empty.push(ten).push(ace));
}

/// A hand never gives away cards, so the total point value is always the
/// blackjack total of every card dealt so far.
pub struct Hand(Vec<Card>);

impl View for Hand {
    type V = Seq<Card>;

    closed spec fn view(&self) -> Seq<Card> {
        self.0@
    }
}

impl Hand {
    /// The cards of the hand, in the order they were dealt.
    pub fn cards(&self) -> (r: &Vec<Card>)
        ensures
            r@ == self@,
    {
        &self.0
    }

    /// Builds a hand holding the given cards.
    pub fn new(cards: Vec<Card>) -> (r: Self)
        ensures
            r@ == cards@,
    {
        Self(cards)
    }

    /// Deals one more card into the hand.
    pub fn push(&mut self, card: Card)
        ensures
            final(self)@ == old(self)@.push(card),
    {
        self.0.push(card);
    }

    /// The per-card values of the hand, in order, before aces are resolved.
    pub fn values(&self) -> (r: Vec<ValueInHand>)
        ensures
            r@.len() == self@.len(),
            forall|i: int| 0 <= i < r@.len() ==> r@[i] == card_value_in_hand(self@[i]),
    {
        let mut vals: Vec<ValueInHand> = Vec::new();
        let mut i: usize = 0;
        while i < self.0.len()
            invariant
                i <= self.0.len(),
                self.0@ == self@,
                vals@.len() == i,
                forall|j: int| 0 <= j < i ==> vals@[j] == card_value_in_hand(self@[j]),
            decreases self.0.len() - i,
        {
            let v = match self.0[i].face {
                CardFace::Number(v) => ValueInHand::Fixed(v),
                CardFace::Jack => ValueInHand::Fixed(10),
                CardFace::King => ValueInHand::Fixed(10),
                CardFace::Queen => ValueInHand::Fixed(10),
                CardFace::Ace => ValueInHand::Wild,
            };
            vals.push(v);
            i = i + 1;
        }
        vals
    }

    /// The blackjack total of the hand.
    ///
    /// The first ace counts 11 unless that would push the total past 21;
    /// every other ace, and otherwise every ace, counts 1.
    pub fn total_value(&self) -> (r: u8)
        requires
            fixed_sum(self@) + wild_count(self@) <= u8::MAX,
        ensures
            r == hand_total(self@),
    {
        let mut sum: u8 = 0;
        let mut wilds: u8 = 0;
        let mut i: usize = 0;
        while i < self.0.len()
            invariant
                i <= self.0.len(),
                self.0@ == self@,
                fixed_sum(self@) + wild_count(self@) <= u8::MAX,
                sum == fixed_sum(self@.take(i as int)),
                wilds == wild_count(self@.take(i as int)),
            decreases self.0.len() - i,
        {
            proof {
                lemma_sums_prefix(self@, i + 1);
                assert(self@.take(i + 1).drop_last() =~= self@.take(i as int));
                assert(self@.take(i + 1).last() == self@[i as int]);
            }
            match self.0[i].face {
                CardFace::Number(v) => {
                    sum = sum + v;
                },
                CardFace::Jack => {
                    sum = sum + 10;
                },
                CardFace::King => {
                    sum = sum + 10;
                },
                CardFace::Queen => {
                    sum = sum + 10;
                },
                CardFace::Ace => {
                    wilds = wilds + 1;
                },
            }
            i = i + 1;
        }
        proof {
            assert(self@.take(i as int) =~= self@);
        }
        // The first wild is worth 11 unless the hand would bust; all other
        // wilds are worth 1.  The comparison is widened so it cannot overflow.
        if wilds > 0 && (sum as u16) + 10 + (wilds as u16) <= 21 {
            sum + 10 + wilds
        } else {
            sum + wilds
        }
    }
}

impl Default for Hand {
    /// An empty hand.
    fn default() -> (r: Self)
        ensures
            r@.len() == 0,
    {
        Self(Vec::new())
    }
}

} // verus!
