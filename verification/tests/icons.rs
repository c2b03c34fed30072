use blackjack::cards::{Card, CardFace, CardSuit};

#[test]
fn icon_writes_the_suit_into_each_pip() {
    let two_of_hearts = Card::new(CardFace::try_from(2).unwrap(), CardSuit::Hearts);
    assert_eq!(two_of_hearts.icon(true), "2        \n\n    H    \n         \n         \n    H    \n\n        2");
    assert_eq!(two_of_hearts.icon(false), "2        \n\n    \u{2665}    \n         \n         \n    \u{2665}    \n\n        2");
}

#[test]
fn ten_icon_keeps_the_template_tab() {
    let ten_of_hearts = Card::new(CardFace::try_from(10).unwrap(), CardSuit::Hearts);
    assert_eq!(ten_of_hearts.icon(true), "10 \t   \n\n   H H   \n  H H H  \n  H H H  \n   H H   \n\n       10");
}

#[test]
fn ace_icon_has_a_single_pip() {
    let ace_of_spades = Card::new(CardFace::Ace, CardSuit::Spades);
    assert_eq!(ace_of_spades.icon(true), "A        \n\n         \n    S    \n         \n         \n\n        A");
    assert_eq!(ace_of_spades.icon(false), "A        \n\n         \n    \u{2660}    \n         \n         \n\n        A");
}

#[test]
fn court_icons_share_the_full_pip_layout() {
    let king = Card::new(CardFace::King, CardSuit::Clubs);
    assert_eq!(king.icon(true), "K        \n\n   C C   \n  C C C  \n  C C C  \n   C C   \n\n        K");
}

#[test]
fn flipped_icon_shows_no_suit() {
    let ascii = Card::flipped_icon(true);
    assert_eq!(ascii, "\n\n /\\_/\\ \n(=^.^=)\n(\") (\")_/\n         \n\n         ");
    let pretty = Card::flipped_icon(false);
    assert!(pretty.contains("(=^.^=)"));
    assert!(pretty.contains('\u{2660}'));
}
