use blackjack::cards::{Card, CardFace, CardSuit};
use blackjack::deck::Deck;
use blackjack::hand::Hand;
use blackjack::round::{
    BlackjackRoundError, BlackjackTable, DealerTurn, DealerTurnResult, GameResult, GameStartResult,
    PlayerTurn, PlayerTurnResult,
};
use blackjack::Config;

fn card(rank: u8, suit: CardSuit) -> Card {
    Card::new(CardFace::try_from(rank).unwrap(), suit)
}

/// A four-card deck that deals `p1, d1, p2, d2` in that order.
fn stacked(p1: Card, d1: Card, p2: Card, d2: Card) -> Deck {
    Deck(vec![d2, p2, d1, p1])
}

#[test]
fn deal_both_naturals_stand_off() {
    let deck = stacked(
        card(1, CardSuit::Spades),
        card(1, CardSuit::Hearts),
        card(13, CardSuit::Spades),
        card(13, CardSuit::Hearts),
    );
    let table = BlackjackTable::new(deck, Hand::new(vec![]), Hand::new(vec![]));
    match table.deal().unwrap() {
        GameStartResult::Natural(t) => {
            assert_eq!(t.result(), &GameResult::StandOff);
            assert_eq!(t.player_hand().total_value(), 21);
            assert_eq!(t.dealer_hand().total_value(), 21);
        }
        GameStartResult::Normal(_) => panic!("a double natural must end the round at once"),
    }
}

#[test]
fn deal_player_natural_wins() {
    let deck = stacked(
        card(1, CardSuit::Spades),
        card(9, CardSuit::Hearts),
        card(13, CardSuit::Spades),
        card(8, CardSuit::Hearts),
    );
    let table = BlackjackTable::new(deck, Hand::new(vec![]), Hand::new(vec![]));
    match table.deal().unwrap() {
        GameStartResult::Natural(t) => {
            assert_eq!(t.result(), &GameResult::PlayerWin);
            assert_eq!(t.player_hand().total_value(), 21);
            assert_eq!(t.dealer_hand().total_value(), 17);
        }
        GameStartResult::Normal(_) => panic!("a player natural must end the round at once"),
    }
}

#[test]
fn deal_dealer_natural_wins() {
    let deck = stacked(
        card(10, CardSuit::Spades),
        card(1, CardSuit::Hearts),
        card(9, CardSuit::Spades),
        card(12, CardSuit::Hearts),
    );
    let table = BlackjackTable::new(deck, Hand::new(vec![]), Hand::new(vec![]));
    match table.deal().unwrap() {
        GameStartResult::Natural(t) => {
            assert_eq!(t.result(), &GameResult::DealerWin);
            assert_eq!(t.player_hand().total_value(), 19);
            assert_eq!(t.dealer_hand().total_value(), 21);
        }
        GameStartResult::Normal(_) => panic!("a dealer natural must end the round at once"),
    }
}

#[test]
fn deal_without_naturals_starts_the_player_turn() {
    let deck = stacked(
        card(9, CardSuit::Hearts),
        card(9, CardSuit::Clubs),
        card(9, CardSuit::Spades),
        card(7, CardSuit::Diamonds),
    );
    let table = BlackjackTable::new(deck, Hand::new(vec![]), Hand::new(vec![]));
    match table.deal().unwrap() {
        GameStartResult::Normal(t) => {
            assert_eq!(t.player_hand().total_value(), 18);
            assert_eq!(t.dealer_hand().total_value(), 16);
            assert_eq!(t.showing_card(), Some(&card(9, CardSuit::Clubs)));
        }
        GameStartResult::Natural(_) => panic!("neither side was dealt a natural"),
    }
}

#[test]
fn deal_fails_on_a_short_deck() {
    let deck = Deck(vec![
        card(2, CardSuit::Clubs),
        card(3, CardSuit::Clubs),
        card(4, CardSuit::Clubs),
    ]);
    let table = BlackjackTable::new(deck, Hand::new(vec![]), Hand::new(vec![]));
    assert!(matches!(table.deal(), Err(BlackjackRoundError::DeckEmpty)));
}

#[test]
fn showing_card_is_none_before_the_deal() {
    let table = BlackjackTable::default();
    assert_eq!(table.showing_card(), None);
}

#[test]
fn default_shuffle_deal_plays_a_round() {
    match BlackjackTable::default().shuffle().deal().unwrap() {
        GameStartResult::Natural(t) => {
            assert!(t.player_hand().total_value() >= 21 || t.dealer_hand().total_value() >= 21);
        }
        GameStartResult::Normal(t) => {
            assert!(t.player_hand().total_value() < 21);
            assert!(t.dealer_hand().total_value() < 21);
            assert!(t.showing_card().is_some());
        }
    }
}

fn player_turn(deck: Deck, player: Vec<Card>, dealer: Vec<Card>) -> BlackjackTable<PlayerTurn> {
    BlackjackTable::<PlayerTurn>::new(deck, Hand::new(player), Hand::new(dealer))
}

fn dealer_turn(deck: Deck, player: Vec<Card>, dealer: Vec<Card>) -> BlackjackTable<DealerTurn> {
    BlackjackTable::<DealerTurn>::new(deck, Hand::new(player), Hand::new(dealer))
}

#[test]
fn player_hit_below_twenty_one_keeps_the_turn() {
    let t = player_turn(
        Deck(vec![card(2, CardSuit::Clubs)]),
        vec![card(9, CardSuit::Hearts), card(9, CardSuit::Spades)],
        vec![card(10, CardSuit::Hearts), card(7, CardSuit::Clubs)],
    );
    match t.hit().unwrap() {
        PlayerTurnResult::Hit(t) => {
            assert_eq!(t.player_hand().total_value(), 20);
        }
        PlayerTurnResult::Bust(_) => panic!("20 is not a bust"),
    }
}

#[test]
fn player_hit_past_twenty_one_busts() {
    let t = player_turn(
        Deck(vec![card(5, CardSuit::Clubs)]),
        vec![card(9, CardSuit::Hearts), card(9, CardSuit::Spades)],
        vec![card(10, CardSuit::Hearts), card(7, CardSuit::Clubs)],
    );
    match t.hit().unwrap() {
        PlayerTurnResult::Bust(t) => {
            assert_eq!(t.result(), &GameResult::PlayerBust);
            assert_eq!(t.player_hand().total_value(), 23);
        }
        PlayerTurnResult::Hit(_) => panic!("23 is a bust"),
    }
}

#[test]
fn player_hit_fails_on_an_empty_deck() {
    let t = player_turn(
        Deck(vec![]),
        vec![card(9, CardSuit::Hearts), card(9, CardSuit::Spades)],
        vec![card(10, CardSuit::Hearts), card(7, CardSuit::Clubs)],
    );
    assert!(matches!(t.hit(), Err(BlackjackRoundError::DeckEmpty)));
}

#[test]
fn player_stand_hands_the_turn_to_the_dealer() {
    let t = player_turn(
        Deck(vec![card(2, CardSuit::Clubs)]),
        vec![card(9, CardSuit::Hearts), card(9, CardSuit::Spades)],
        vec![card(10, CardSuit::Hearts), card(7, CardSuit::Clubs)],
    );
    let dealer = t.stand();
    // Dealer 17 against player 18: the dealer stands below the player.
    let over = dealer.stand();
    assert_eq!(over.result(), &GameResult::PlayerWin);
}

#[test]
fn dealer_hit_below_seventeen_keeps_drawing() {
    let t = dealer_turn(
        Deck(vec![card(2, CardSuit::Clubs)]),
        vec![card(9, CardSuit::Hearts), card(9, CardSuit::Spades)],
        vec![card(5, CardSuit::Hearts), card(7, CardSuit::Clubs)],
    );
    match t.hit().unwrap() {
        DealerTurnResult::Hit(t) => {
            assert_eq!(t.dealer_hand().total_value(), 14);
        }
        DealerTurnResult::Stand(_) => panic!("14 is below the dealer's standing total"),
    }
}

#[test]
fn dealer_auto_play_stands_at_nineteen() {
    // Dealer 16, next draw a 3: the dealer reaches 19 and must stand,
    // resolving against the fixed player total of 18.
    let t = dealer_turn(
        Deck(vec![card(3, CardSuit::Clubs)]),
        vec![card(9, CardSuit::Hearts), card(9, CardSuit::Spades)],
        vec![card(9, CardSuit::Clubs), card(7, CardSuit::Diamonds)],
    );
    match t.hit().unwrap() {
        DealerTurnResult::Stand(t) => {
            assert_eq!(t.dealer_hand().total_value(), 19);
            assert_eq!(t.result(), &GameResult::DealerWin);
        }
        DealerTurnResult::Hit(_) => panic!("19 stands"),
    }
}

#[test]
fn dealer_tie_goes_to_the_player() {
    // Dealer 16 drawing to 19 against player 19: the exact tie resolves
    // to a player win, mirroring the engine's dealer-stand rule.
    let t = dealer_turn(
        Deck(vec![card(3, CardSuit::Clubs)]),
        vec![card(10, CardSuit::Hearts), card(9, CardSuit::Spades)],
        vec![card(9, CardSuit::Clubs), card(7, CardSuit::Diamonds)],
    );
    match t.hit().unwrap() {
        DealerTurnResult::Stand(t) => {
            assert_eq!(t.dealer_hand().total_value(), 19);
            assert_eq!(t.player_hand().total_value(), 19);
            assert_eq!(t.result(), &GameResult::PlayerWin);
        }
        DealerTurnResult::Hit(_) => panic!("19 stands"),
    }
}

#[test]
fn dealer_bust_ends_the_round() {
    let t = dealer_turn(
        Deck(vec![card(13, CardSuit::Clubs)]),
        vec![card(9, CardSuit::Hearts), card(9, CardSuit::Spades)],
        vec![card(9, CardSuit::Clubs), card(7, CardSuit::Diamonds)],
    );
    match t.hit().unwrap() {
        DealerTurnResult::Stand(t) => {
            assert_eq!(t.dealer_hand().total_value(), 26);
            assert_eq!(t.result(), &GameResult::DealerBust);
        }
        DealerTurnResult::Hit(_) => panic!("26 is a bust"),
    }
}

#[test]
fn dealer_hit_fails_on_an_empty_deck() {
    let t = dealer_turn(
        Deck(vec![]),
        vec![card(9, CardSuit::Hearts), card(9, CardSuit::Spades)],
        vec![card(9, CardSuit::Clubs), card(7, CardSuit::Diamonds)],
    );
    assert!(matches!(t.hit(), Err(BlackjackRoundError::DeckEmpty)));
}

#[test]
fn with_result_overrides_the_stored_result() {
    let deck = stacked(
        card(1, CardSuit::Spades),
        card(1, CardSuit::Hearts),
        card(13, CardSuit::Spades),
        card(13, CardSuit::Hearts),
    );
    let table = BlackjackTable::new(deck, Hand::new(vec![]), Hand::new(vec![]));
    match table.deal().unwrap() {
        GameStartResult::Natural(t) => {
            let t = t.with_result(GameResult::DealerBust);
            assert_eq!(t.result(), &GameResult::DealerBust);
        }
        GameStartResult::Normal(_) => panic!("a double natural must end the round at once"),
    }
}

#[test]
fn config_fields() {
    let cfg = Config { ascii: true, cli: false };
    assert!(cfg.ascii);
    assert!(!cfg.cli);
}
