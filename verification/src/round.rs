//! The round state machine: one table owning a shoe and two hands,
//! passing through phase-gated states from the deal to a final result.

use vstd::prelude::*;

use crate::cards::Card;
use crate::deck::{deck_valid, Deck};
use crate::hand::{fixed_sum, hand_total, wild_count, Hand};

verus! {

/// Phase tag: no cards have been dealt yet.
#[derive(Debug)]
pub struct NotStarted;

/// Phase tag: the player is drawing or standing.
#[derive(Debug)]
pub struct PlayerTurn;

/// Phase tag: the dealer is playing out the house rule.
#[derive(Debug)]
pub struct DealerTurn;

/// Terminal phase, carrying the result of the round.
#[derive(Debug)]
pub struct GameOver(pub GameResult);

/// How a finished round came out.
#[derive(Debug, Clone, Copy, PartialEq, Eq, Structural, Default)]
pub enum GameResult {
    /// The dealer won on points, or by a natural.
    #[default]
    DealerWin,
    /// The player won on points, or by a natural.
    PlayerWin,
    /// The dealer drew past 21.
    DealerBust,
    /// The player drew past 21.
    PlayerBust,
    /// Both parties drew a natural: nobody wins.
    StandOff,
}

/// A phase of the round.  Each phase knows which hands are acceptable on
/// entering it, so that every operation of the phase stays within the
/// card model's bounds.
pub trait BlackjackTableState: Sized {
    /// What must hold of the two hands whenever the table is in this phase.
    spec fn hands_wf(player: Seq<Card>, dealer: Seq<Card>) -> bool;

    /// The tag value a fresh table of this phase carries.
    spec fn initial() -> Self;

    /// Builds the fresh tag value.
    fn init() -> (r: Self)
        ensures
            r == Self::initial(),
    ;
}

impl BlackjackTableState for NotStarted {
    /// Before the deal both hands are empty.
    open spec fn hands_wf(player: Seq<Card>, dealer: Seq<Card>) -> bool {
        player.len() == 0 && dealer.len() == 0
    }

    open spec fn initial() -> Self {
        NotStarted
    }

    fn init() -> Self {
        NotStarted
    }
}

impl BlackjackTableState for PlayerTurn {
    /// During the player's turn neither hand has bust.
    open spec fn hands_wf(player: Seq<Card>, dealer: Seq<Card>) -> bool {
        hand_total(player) <= 21 && hand_total(dealer) <= 21
    }

    open spec fn initial() -> Self {
        PlayerTurn
    }

    fn init() -> Self {
        PlayerTurn
    }
}

impl BlackjackTableState for DealerTurn {
    /// During the dealer's turn neither hand has bust.
    open spec fn hands_wf(player: Seq<Card>, dealer: Seq<Card>) -> bool {
        hand_total(player) <= 21 && hand_total(dealer) <= 21
    }

    open spec fn initial() -> Self {
        DealerTurn
    }

    fn init() -> Self {
        DealerTurn
    }
}

impl BlackjackTableState for GameOver {
    /// A finished round accepts any hands; nothing is drawn any more.
    open spec fn hands_wf(player: Seq<Card>, dealer: Seq<Card>) -> bool {
        true
    }

    open spec fn initial() -> Self {
        GameOver(GameResult::DealerWin)
    }

    fn init() -> Self {
        GameOver(GameResult::DealerWin)
    }
}

/// The one error a round can raise: a draw from an exhausted shoe.
#[derive(Debug, Clone, Copy, PartialEq, Eq, Structural)]
pub enum BlackjackRoundError {
    /// The shoe has no cards left.
    DeckEmpty,
}

/// The blackjack table, containing all state necessary to keep track of
/// an in-progress game.
///
/// The game has a deck, from which cards are pulled, a hand for the
/// dealer, and a hand for the player.
///
/// The phase of the game is a type parameter, so that actions can only
/// be taken during the phase in which they are legal.
pub struct BlackjackTable<S: BlackjackTableState = NotStarted> {
    deck: Deck,
    dealer: Hand,
    player: Hand,
    game_state: S,
}

impl<S: BlackjackTableState> BlackjackTable<S> {
    /// The cards remaining in the shoe.
    pub closed spec fn spec_deck(self) -> Seq<Card> {
        self.deck@
    }

    /// The player's cards.
    pub closed spec fn spec_player(self) -> Seq<Card> {
        self.player@
    }

    /// The dealer's cards.
    pub closed spec fn spec_dealer(self) -> Seq<Card> {
        self.dealer@
    }

    /// The phase tag the table carries.
    pub closed spec fn spec_state(self) -> S {
        self.game_state
    }

    /// A table is well formed when every card of the shoe is well formed
    /// and the hands satisfy the phase's own condition.
    pub open spec fn wf(self) -> bool {
        deck_valid(self.spec_deck()) && S::hands_wf(self.spec_player(), self.spec_dealer())
    }

    /// Builds a table in phase `S` from a shoe and two hands.
    pub fn new(deck: Deck, player: Hand, dealer: Hand) -> (r: Self)
        requires
            deck_valid(deck@),
            S::hands_wf(player@, dealer@),
        ensures
            r.spec_deck() == deck@,
            r.spec_player() == player@,
            r.spec_dealer() == dealer@,
            r.spec_state() == S::initial(),
            r.wf(),
    {
        Self { deck, dealer, player, game_state: S::init() }
    }

    /// Shuffle the deck so that drawn cards are random.
    pub fn shuffle(self) -> (r: Self)
        requires
            self.wf(),
        ensures
            r.spec_deck().len() == self.spec_deck().len(),
            r.spec_deck().to_multiset() == self.spec_deck().to_multiset(),
            r.spec_player() == self.spec_player(),
            r.spec_dealer() == self.spec_dealer(),
            r.spec_state() == S::initial(),
            r.wf(),
    {
        let mut this = self;
        this.deck.shuffle();
        proof {
            crate::deck::lemma_deck_valid_permutation(self.spec_deck(), this.deck@);
        }
        Self::new(this.deck, this.player, this.dealer)
    }

    /// The dealer's first dealt card, the one shown to the player.
    ///
    /// `None` only before any dealing has occurred.
    pub fn showing_card(&self) -> (r: Option<&Card>)
        ensures
            match r {
                Some(c) => self.spec_dealer().len() > 0 && *c == self.spec_dealer()[0],
                None => self.spec_dealer().len() == 0,
            },
    {
        let cards = self.dealer.cards();
        if cards.len() > 0 {
            Some(&cards[0])
        } else {
            None
        }
    }

    /// A read-only view of the player's hand.
    pub fn player_hand(&self) -> (r: &Hand)
        ensures
            r@ == self.spec_player(),
    {
        &self.player
    }

    /// A read-only view of the dealer's hand.
    pub fn dealer_hand(&self) -> (r: &Hand)
        ensures
            r@ == self.spec_dealer(),
    {
        &self.dealer
    }
}

/// Field-by-field description of a table, for contracts.
pub open spec fn table_is<S: BlackjackTableState>(
    t: BlackjackTable<S>,
    deck: Seq<Card>,
    player: Seq<Card>,
    dealer: Seq<Card>,
) -> bool {
    t.spec_deck() == deck && t.spec_player() == player && t.spec_dealer() == dealer
}

/// How the deal can come out: an immediate natural ending the round, or a
/// normal start handing the table to the player.
pub enum GameStartResult {
    /// At least one party was dealt 21; the round is already over.
    Natural(BlackjackTable<GameOver>),
    /// Neither party was dealt 21; the player plays.
    Normal(BlackjackTable<PlayerTurn>),
}

impl BlackjackTable<NotStarted> {
    /// Start the game by dealing cards from the deck into the dealer's
    /// and player's hand, alternating player, dealer, player, dealer.
    ///
    /// The game can end immediately if the player, dealer, or both draw a
    /// natural: both at 21 is a stand-off, one side alone at 21 wins on
    /// the spot.  The deal fails with `DeckEmpty` when the shoe holds
    /// fewer than four cards.
    pub fn deal(self) -> (r: Result<GameStartResult, BlackjackRoundError>)
        requires
            self.wf(),
        ensures
            r is Err <==> self.spec_deck().len() < 4,
            r matches Err(e) ==> e == BlackjackRoundError::DeckEmpty,
            r is Ok ==> ({
                let deck0 = self.spec_deck();
                let n = deck0.len() as int;
                let player1 = seq![deck0[n - 1], deck0[n - 3]];
                let dealer1 = seq![deck0[n - 2], deck0[n - 4]];
                let deck1 = deck0.take(n - 4);
                let p = hand_total(player1);
                let d = hand_total(dealer1);
                match r->Ok_0 {
                    GameStartResult::Natural(t) => {
                        &&& p >= 21 || d >= 21
                        &&& table_is(t, deck1, player1, dealer1)
                        &&& t.wf()
                        &&& t.spec_result() == (if p >= 21 && d >= 21 {
                            GameResult::StandOff
                        } else if p >= 21 {
                            GameResult::PlayerWin
                        } else {
                            GameResult::DealerWin
                        })
                    },
                    GameStartResult::Normal(t) => {
                        &&& p < 21 && d < 21
                        &&& table_is(t, deck1, player1, dealer1)
                        &&& t.wf()
                    },
                }
            }),
    {
        let ghost deck0 = self.spec_deck();
        let mut this = self;

        let c1 = match this.deck.draw() {
            Some(c) => c,
            None => { return Err(BlackjackRoundError::DeckEmpty) },
        };
        this.player.push(c1);
        let c2 = match this.deck.draw() {
            Some(c) => c,
            None => { return Err(BlackjackRoundError::DeckEmpty) },
        };
        this.dealer.push(c2);
        let c3 = match this.deck.draw() {
            Some(c) => c,
            None => { return Err(BlackjackRoundError::DeckEmpty) },
        };
        this.player.push(c3);
        let c4 = match this.deck.draw() {
            Some(c) => c,
            None => { return Err(BlackjackRoundError::DeckEmpty) },
        };
        this.dealer.push(c4);

        let ghost n = deck0.len() as int;
        proof {
            assert(this.player@ =~= seq![deck0[n - 1], deck0[n - 3]]);
            assert(this.dealer@ =~= seq![deck0[n - 2], deck0[n - 4]]);
            assert(this.deck@ =~= deck0.take(n - 4));
            crate::deck::lemma_deck_valid_take(deck0, n - 4);
            lemma_two_card_sums(deck0, this.player@, n - 1, n - 3);
            lemma_two_card_sums(deck0, this.dealer@, n - 2, n - 4);
        }

        let player_score = this.player.total_value();
        let dealer_score = this.dealer.total_value();

        if player_score >= 21 && dealer_score >= 21 {
            Ok(
                GameStartResult::Natural(
                    BlackjackTable::new(this.deck, this.player, this.dealer).with_result(
                        GameResult::StandOff,
                    ),
                ),
            )
        } else if player_score >= 21 {
            Ok(
                GameStartResult::Natural(
                    BlackjackTable::new(this.deck, this.player, this.dealer).with_result(
                        GameResult::PlayerWin,
                    ),
                ),
            )
        } else if dealer_score >= 21 {
            Ok(
                GameStartResult::Natural(
                    BlackjackTable::new(this.deck, this.player, this.dealer).with_result(
                        GameResult::DealerWin,
                    ),
                ),
            )
        } else {
            Ok(GameStartResult::Normal(BlackjackTable::new(this.deck, this.player, this.dealer)))
        }
    }
}

/// The sums of a two-card hand drawn from a valid deck stay within the
/// card model's bounds.
proof fn lemma_two_card_sums(deck: Seq<Card>, hand: Seq<Card>, i: int, j: int)
    requires
        deck_valid(deck),
        0 <= i < deck.len(),
        0 <= j < deck.len(),
        hand =~= seq![deck[i], deck[j]],
    ensures
        fixed_sum(hand) + wild_count(hand) <= 22,
{
    let empty = Seq::<Card>::empty();
    crate::hand::lemma_sums_push(empty, deck[i]);
    crate::hand::lemma_sums_push(empty.push(deck[i]), deck[j]);
    assert(hand =~= empty.push(deck[i]).push(deck[j]));
    assert(crate::cards::card_valid(deck[i]));
    assert(crate::cards::card_valid(deck[j]));
    assert(card_points_bounded(deck[i]) && card_points_bounded(deck[j]));
}

/// A well-formed card contributes at most 10 fixed points and at most one
/// wild.
pub open spec fn card_points_bounded(card: Card) -> bool {
    crate::hand::fixed_contrib(card) + crate::hand::wild_contrib(card) <= 10
}

/// How one draw of the player can come out: another turn, or a bust that
/// ends the round.
pub enum PlayerTurnResult {
    /// The player stayed at or under 21 and may draw again or stand.
    Hit(BlackjackTable<PlayerTurn>),
    /// The player drew past 21 and the round is over.
    Bust(BlackjackTable<GameOver>),
}

impl BlackjackTable<PlayerTurn> {
    /// Draw a card into the player's hand.
    ///
    /// The game can end immediately if the player goes bust; otherwise
    /// the player keeps the turn.  Fails with `DeckEmpty` on an empty
    /// shoe.
    pub fn hit(self) -> (r: Result<PlayerTurnResult, BlackjackRoundError>)
        requires
            self.wf(),
        ensures
            r is Err <==> self.spec_deck().len() == 0,
            r matches Err(e) ==> e == BlackjackRoundError::DeckEmpty,
            r is Ok ==> ({
                let deck0 = self.spec_deck();
                let player1 = self.spec_player().push(deck0.last());
                let deck1 = deck0.drop_last();
                match r->Ok_0 {
                    PlayerTurnResult::Hit(t) => {
                        &&& hand_total(player1) <= 21
                        &&& table_is(t, deck1, player1, self.spec_dealer())
                        &&& t.wf()
                    },
                    PlayerTurnResult::Bust(t) => {
                        &&& hand_total(player1) > 21
                        &&& table_is(t, deck1, player1, self.spec_dealer())
                        &&& t.wf()
                        &&& t.spec_result() == GameResult::PlayerBust
                    },
                }
            }),
    {
        let mut this = self;
        let card = match this.deck.draw() {
            Some(c) => c,
            None => { return Err(BlackjackRoundError::DeckEmpty) },
        };
        this.player.push(card);

        proof {
            lemma_draw_keeps_sums_bounded(self.spec_deck(), self.spec_player(), card);
            crate::deck::lemma_deck_valid_take(
                self.spec_deck(),
                self.spec_deck().len() - 1,
            );
        }

        if this.player.total_value() > 21 {
            Ok(
                PlayerTurnResult::Bust(
                    BlackjackTable::new(this.deck, this.player, this.dealer).with_result(
                        GameResult::PlayerBust,
                    ),
                ),
            )
        } else {
            Ok(PlayerTurnResult::Hit(BlackjackTable::new(this.deck, this.player, this.dealer)))
        }
    }

    /// End the player's turn and start the dealer's turn.
    pub fn stand(self) -> (r: BlackjackTable<DealerTurn>)
        requires
            self.wf(),
        ensures
            table_is(r, self.spec_deck(), self.spec_player(), self.spec_dealer()),
            r.wf(),
    {
        BlackjackTable::new(self.deck, self.player, self.dealer)
    }
}

/// A hand that has not bust stays within the card model's bounds after
/// one more draw from a valid deck.
proof fn lemma_draw_keeps_sums_bounded(deck: Seq<Card>, hand: Seq<Card>, card: Card)
    requires
        deck_valid(deck),
        deck.len() > 0,
        card == deck.last(),
        hand_total(hand) <= 21,
    ensures
        fixed_sum(hand.push(card)) + wild_count(hand.push(card)) <= 31,
{
    crate::hand::lemma_sums_push(hand, card);
    assert(card == deck[deck.len() - 1]);
    assert(crate::cards::card_valid(deck[deck.len() - 1]));
    assert(card_points_bounded(card));
}

/// How one draw of the dealer can come out: the house rule keeps the
/// dealer drawing below 17, and stands the dealer at 17 or more.
pub enum DealerTurnResult {
    /// The dealer's total is still below 17; the dealer draws again.
    Hit(BlackjackTable<DealerTurn>),
    /// The dealer reached 17 or more and stood; the round is over.
    Stand(BlackjackTable<GameOver>),
}

impl BlackjackTable<DealerTurn> {
    /// Draw a card into the dealer's hand.
    ///
    /// Below a total of 17 the dealer must keep hitting; at 17 or more
    /// the dealer stands at once and the round resolves as in
    /// [`Self::stand`].  Fails with `DeckEmpty` on an empty shoe.
    pub fn hit(self) -> (r: Result<DealerTurnResult, BlackjackRoundError>)
        requires
            self.wf(),
        ensures
            r is Err <==> self.spec_deck().len() == 0,
            r matches Err(e) ==> e == BlackjackRoundError::DeckEmpty,
            r is Ok ==> ({
                let deck0 = self.spec_deck();
                let dealer1 = self.spec_dealer().push(deck0.last());
                let deck1 = deck0.drop_last();
                let d = hand_total(dealer1);
                let p = hand_total(self.spec_player());
                match r->Ok_0 {
                    DealerTurnResult::Hit(t) => {
                        &&& d < 17
                        &&& table_is(t, deck1, self.spec_player(), dealer1)
                        &&& t.wf()
                    },
                    DealerTurnResult::Stand(t) => {
                        &&& d >= 17
                        &&& table_is(t, deck1, self.spec_player(), dealer1)
                        &&& t.wf()
                        &&& t.spec_result() == (if d > 21 {
                            GameResult::DealerBust
                        } else if d > p {
                            GameResult::DealerWin
                        } else {
                            GameResult::PlayerWin
                        })
                    },
                }
            }),
    {
        let mut this = self;
        let card = match this.deck.draw() {
            Some(c) => c,
            None => { return Err(BlackjackRoundError::DeckEmpty) },
        };
        this.dealer.push(card);

        proof {
            lemma_draw_keeps_sums_bounded(self.spec_deck(), self.spec_dealer(), card);
            crate::deck::lemma_deck_valid_take(
                self.spec_deck(),
                self.spec_deck().len() - 1,
            );
        }

        let resulting_value = this.dealer.total_value();

        if resulting_value < 17 {
            Ok(DealerTurnResult::Hit(BlackjackTable::new(this.deck, this.player, this.dealer)))
        } else {
            Ok(DealerTurnResult::Stand(this.stand()))
        }
    }

    /// End the dealer's turn immediately, ending the game.
    ///
    /// A dealer past 21 busts; otherwise the higher total wins, with an
    /// exact tie going to the player.
    pub fn stand(self) -> (r: BlackjackTable<GameOver>)
        requires
            deck_valid(self.spec_deck()),
            fixed_sum(self.spec_player()) + wild_count(self.spec_player()) <= u8::MAX,
            fixed_sum(self.spec_dealer()) + wild_count(self.spec_dealer()) <= u8::MAX,
        ensures
            table_is(r, self.spec_deck(), self.spec_player(), self.spec_dealer()),
            r.wf(),
            r.spec_result() == ({
                let d = hand_total(self.spec_dealer());
                let p = hand_total(self.spec_player());
                if d > 21 {
                    GameResult::DealerBust
                } else if d > p {
                    GameResult::DealerWin
                } else {
                    GameResult::PlayerWin
                }
            }),
    {
        let dealer_value = self.dealer.total_value();

        if dealer_value > 21 {
            BlackjackTable::new(self.deck, self.player, self.dealer).with_result(
                GameResult::DealerBust,
            )
        } else if dealer_value > self.player.total_value() {
            BlackjackTable::new(self.deck, self.player, self.dealer).with_result(
                GameResult::DealerWin,
            )
        } else {
            BlackjackTable::new(self.deck, self.player, self.dealer).with_result(
                GameResult::PlayerWin,
            )
        }
    }
}

impl BlackjackTable<GameOver> {
    /// The result of a round is fixed for every observer.
    pub open spec fn spec_result(self) -> GameResult {
        self.spec_state().0
    }

    /// Returns a reference to the [`GameResult`] stored in the game's
    /// state.
    pub fn result(&self) -> (r: &GameResult)
        ensures
            *r == self.spec_result(),
    {
        &self.game_state.0
    }

    /// Set the result of the finished game to the supplied
    /// [`GameResult`].
    pub fn with_result(self, res: GameResult) -> (r: Self)
        ensures
            table_is(r, self.spec_deck(), self.spec_player(), self.spec_dealer()),
            r.spec_result() == res,
    {
        Self { deck: self.deck, dealer: self.dealer, player: self.player, game_state: GameOver(res) }
    }
}

impl Default for BlackjackTable {
    /// A fresh table: a six-deck shoe in canonical order, two empty
    /// hands, nothing dealt.
    fn default() -> (r: Self)
        ensures
            r.spec_deck().len() == 312,
            forall|i: int|
                0 <= i < r.spec_deck().len() ==> r.spec_deck()[i] == crate::deck::canonical_card(
                    i,
                ),
            r.spec_player().len() == 0,
            r.spec_dealer().len() == 0,
            r.wf(),
    {
        BlackjackTable::new(Deck::default(), Hand::default(), Hand::default())
    }
}

} // verus!
