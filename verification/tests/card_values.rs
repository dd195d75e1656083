use blackjack::cards::{Card, CardColor, CardType};

const RANKS: [CardType; 13] = [
    CardType::Two,
    CardType::Three,
    CardType::Four,
    CardType::Five,
    CardType::Six,
    CardType::Seven,
    CardType::Eight,
    CardType::Nine,
    CardType::Ten,
    CardType::Jack,
    CardType::Queen,
    CardType::King,
    CardType::Ace,
];

#[test]
fn number_ranks_are_worth_their_number() {
    let expected: [u8; 9] = [2, 3, 4, 5, 6, 7, 8, 9, 10];
    for (i, want) in expected.iter().enumerate() {
        assert_eq!(RANKS[i].to_value(true), *want);
        assert_eq!(RANKS[i].to_value(false), *want);
    }
}

#[test]
fn face_cards_are_worth_ten() {
    for rank in [CardType::Jack, CardType::Queen, CardType::King] {
        assert_eq!(rank.to_value(true), 10);
        assert_eq!(rank.to_value(false), 10);
    }
}

#[test]
fn ace_is_worth_eleven_or_one() {
    assert_eq!(CardType::Ace.to_value(true), 11);
    assert_eq!(CardType::Ace.to_value(false), 1);
}

#[test]
fn placeholder_rank_is_worth_nothing() {
    assert_eq!(CardType::Empty.to_value(true), 0);
    assert_eq!(CardType::Empty.to_value(false), 0);
}

#[test]
fn rank_names_are_two_characters() {
    assert_eq!(CardType::Ace.to_name(), ['A', ' ']);
    assert_eq!(CardType::Two.to_name(), ['2', ' ']);
    assert_eq!(CardType::Three.to_name(), ['3', ' ']);
    assert_eq!(CardType::Four.to_name(), ['4', ' ']);
    assert_eq!(CardType::Five.to_name(), ['5', ' ']);
    assert_eq!(CardType::Six.to_name(), ['6', ' ']);
    assert_eq!(CardType::Seven.to_name(), ['7', ' ']);
    assert_eq!(CardType::Eight.to_name(), ['8', ' ']);
    assert_eq!(CardType::Nine.to_name(), ['9', ' ']);
    assert_eq!(CardType::Ten.to_name(), ['1', '0']);
    assert_eq!(CardType::Jack.to_name(), ['J', ' ']);
    assert_eq!(CardType::Queen.to_name(), ['Q', ' ']);
    assert_eq!(CardType::King.to_name(), ['K', ' ']);
    assert_eq!(CardType::Empty.to_name(), [' ', ' ']);
}

#[test]
fn suit_symbols() {
    assert_eq!(CardColor::Clover.to_value(), "\u{2663}");
    assert_eq!(CardColor::Clubs.to_value(), "\u{2660}");
    assert_eq!(CardColor::Diamond.to_value(), "\u{2666}");
    assert_eq!(CardColor::Hearts.to_value(), "\u{2665}");
    assert_eq!(CardColor::Empty.to_value(), "");
}

#[test]
fn new_card_lies_face_up() {
    let card = Card::new(CardColor::Diamond, CardType::Seven);
    assert_eq!(card.color, CardColor::Diamond);
    assert_eq!(card.value, CardType::Seven);
    assert!(!card.face_down);
}

#[test]
fn empty_card_has_no_suit_and_no_rank() {
    let card = Card::new_empty();
    assert_eq!(card.color, CardColor::Empty);
    assert_eq!(card.value, CardType::Empty);
    assert!(!card.face_down);
    assert_eq!(card.get_value(), 0);
}

#[test]
fn overwrite_card_keeps_the_side() {
    let mut card = Card::new(CardColor::Clubs, CardType::Ace);
    card.face_down = true;
    card.overwrite_card(CardColor::Hearts, CardType::Nine);
    assert_eq!(card, Card { color: CardColor::Hearts, value: CardType::Nine, face_down: true });
    let mut other = Card::new(CardColor::Clubs, CardType::Ace);
    other.overwrite_card(CardColor::Clover, CardType::Two);
    assert_eq!(other, Card::new(CardColor::Clover, CardType::Two));
}

#[test]
fn get_value_counts_the_ace_high() {
    assert_eq!(Card::new(CardColor::Hearts, CardType::Ace).get_value(), 11);
    assert_eq!(Card::new(CardColor::Hearts, CardType::King).get_value(), 10);
    assert_eq!(Card::new(CardColor::Hearts, CardType::Two).get_value(), 2);
}

#[test]
fn card_in_words() {
    assert_eq!(Card::new(CardColor::Hearts, CardType::King).print_card(), "(\u{2665}, K )");
    assert_eq!(Card::new(CardColor::Clover, CardType::Ten).print_card(), "(\u{2663}, 10)");
    assert_eq!(Card::new_empty().print_card(), "(,   )");
}
