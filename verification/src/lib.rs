//! A blackjack round engine: cards, a multi-deck shoe, hands with the
//! ace-ambiguity rule, and a phase-gated round state machine.

pub mod card_icons;
pub mod cards;
pub mod deck;
pub mod hand;
pub mod round;

use vstd::prelude::*;

verus! {

/// Runtime options for a driving front end: whether to restrict output to
/// ASCII, and whether to run as a plain command-line game.
pub struct Config {
    /// Only use ASCII text for card suits and icons.
    pub ascii: bool,
    /// Run the game as a plain command-line loop.
    pub cli: bool,
}

} // verus!
