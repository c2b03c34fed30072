//! The shoe: one or more concatenated standard 52-card decks.

use rand::seq::SliceRandom;
use vstd::prelude::*;

use crate::cards::{card_valid, face_of_rank, Card, CardFace, CardSuit};

verus! {

/// Every card of the sequence is well formed.
pub open spec fn deck_valid(cards: Seq<Card>) -> bool {
    forall|i: int| 0 <= i < cards.len() ==> card_valid(cards[i])
}

/// The suit at a position within one rank's block of four cards.
pub open spec fn canonical_suit(k: int) -> CardSuit {
    if k == 0 {
        CardSuit::Clubs
    } else if k == 1 {
        CardSuit::Diamonds
    } else if k == 2 {
        CardSuit::Hearts
    } else {
        CardSuit::Spades
    }
}

/// The card at position `i` of a freshly built shoe: ranks ascend from
/// ace to king, each rank appearing once per suit, repeated per sub-deck.
pub open spec fn canonical_card(i: int) -> Card {
    Card { suit: canonical_suit(i % 4), face: face_of_rank((1 + (i % 52) / 4) as u8) }
}

/// A permutation keeps every card of a valid deck valid.
pub proof fn lemma_deck_valid_permutation(s1: Seq<Card>, s2: Seq<Card>)
    requires
        deck_valid(s1),
        s2.to_multiset() == s1.to_multiset(),
    ensures
        deck_valid(s2),
{
    broadcast use vstd::seq_lib::group_to_multiset_ensures;

    assert forall|i: int| 0 <= i < s2.len() implies card_valid(s2[i]) by {
        assert(s2.contains(s2[i]));
        assert(s1.to_multiset().count(s2[i]) > 0);
        assert(s1.contains(s2[i]));
        let j = choose|j: int| 0 <= j < s1.len() && s1[j] == s2[i];
        assert(card_valid(s1[j]));
    };
}

/// A prefix of a valid deck is a valid deck.
pub proof fn lemma_deck_valid_take(s: Seq<Card>, k: int)
    requires
        deck_valid(s),
        0 <= k <= s.len(),
    ensures
        deck_valid(s.take(k)),
{
    assert forall|i: int| 0 <= i < s.take(k).len() implies card_valid(s.take(k)[i]) by {
        assert(s.take(k)[i] == s[i]);
    };
}

/// The shoe: an ordered pile of cards, drawn from the top (the end of the
/// sequence) until it is exhausted.
pub struct Deck(pub Vec<Card>);

impl View for Deck {
    type V = Seq<Card>;

    open spec fn view(&self) -> Seq<Card> {
        self.0@
    }
}

impl Deck {
    /// Builds `52 * num_decks` cards in canonical order: within each
    /// sub-deck the ranks ascend from ace to king, and each rank appears
    /// once in clubs, diamonds, hearts and spades, in that order.
    pub fn new(num_decks: u8) -> (r: Self)
        ensures
            r@.len() == 52 * num_decks,
            forall|i: int| 0 <= i < r@.len() ==> r@[i] == canonical_card(i),
            deck_valid(r@),
    {
        let total: usize = 52 * (num_decks as usize);
        let mut v: Vec<Card> = Vec::with_capacity(total);
        let mut i: usize = 0;
        while i < total
            invariant
                i <= total,
                total == 52 * num_decks,
                v@.len() == i,
                forall|k: int| 0 <= k < i ==> v@[k] == canonical_card(k),
            decreases total - i,
        {
            let rank: u8 = (1 + (i % 52) / 4) as u8;
            let face = match CardFace::try_from(rank) {
                Ok(f) => f,
                Err(_) => CardFace::Ace,
            };
            let suit = match i % 4 {
                0 => CardSuit::Clubs,
                1 => CardSuit::Diamonds,
                2 => CardSuit::Hearts,
                _ => CardSuit::Spades,
            };
            v.push(Card::new(face, suit));
            i = i + 1;
        }
        assert forall|k: int| 0 <= k < v@.len() implies card_valid(v@[k]) by {
            assert(v@[k] == canonical_card(k));
        };
        Self(v)
    }

    /// Reorders the remaining cards in place, uniformly at random.
    ///
    /// Relies on rand's `SliceRandom::shuffle`: the slice afterwards holds
    /// a permutation of the same cards, so the count and the multiset of
    /// cards are unchanged.
    #[verifier::external_body]
    pub fn shuffle(&mut self)
        ensures
            final(self)@.len() == old(self)@.len(),
            final(self)@.to_multiset() == old(self)@.to_multiset(),
    {
        self.0.shuffle(&mut rand::rng());
    }

    /// Removes and returns the top card, or `None` once the shoe is empty.
    pub fn draw(&mut self) -> (r: Option<Card>)
        ensures
            old(self)@.len() == 0 ==> r is None && final(self)@ == old(self)@,
            old(self)@.len() > 0 ==> r == Some(old(self)@.last()) && final(self)@ == old(
                self,
            )@.drop_last(),
    {
        self.0.pop()
    }
}

impl Default for Deck {
    /// A six-deck shoe of 312 cards, the common casino size.
    fn default() -> (r: Self)
        ensures
            r@.len() == 312,
            forall|i: int| 0 <= i < r@.len() ==> r@[i] == canonical_card(i),
            deck_valid(r@),
    {
        Self::new(6)
    }
}

} // verus!
