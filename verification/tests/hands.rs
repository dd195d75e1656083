use blackjack::cards::{Card, CardColor, CardType};
use blackjack::deck::Deck;
use blackjack::hand::{Player, BLACKJACK, MAX_DEALER_HAND_VALUE, MAX_HAND};

fn card(value: CardType) -> Card {
    Card::new(CardColor::Hearts, value)
}

fn hand_of(is_dealer: bool, ranks: &[CardType]) -> Player {
    let mut hand = Player::new(is_dealer);
    for rank in ranks {
        assert!(!hand.is_terminal());
        hand.add_card(card(*rank));
    }
    hand
}

#[test]
fn limits_of_the_game() {
    assert_eq!(MAX_HAND, 10);
    assert_eq!(MAX_DEALER_HAND_VALUE, 17);
    assert_eq!(BLACKJACK, 21);
}

#[test]
fn new_hand_is_empty() {
    for is_dealer in [false, true] {
        let hand = Player::new(is_dealer);
        assert_eq!(hand.is_dealer(), is_dealer);
        assert_eq!(hand.hand_count(), 0);
        assert_eq!(hand.hand_value(), 0);
        assert!(!hand.is_standing());
        assert!(!hand.is_bust());
        assert!(!hand.is_terminal());
        assert!(!hand.has_blackjack());
        assert!(!hand.can_split());
        assert!(hand.get_player_cards().is_empty());
    }
}

#[test]
fn cards_without_aces_add_up() {
    let ranks = [CardType::Two, CardType::Seven, CardType::King, CardType::Two];
    for is_dealer in [false, true] {
        let hand = hand_of(is_dealer, &ranks);
        assert_eq!(hand.hand_value(), 2 + 7 + 10 + 2);
        assert_eq!(hand.hand_count(), 4);
    }
    let every = [
        (CardType::Two, 2),
        (CardType::Three, 3),
        (CardType::Four, 4),
        (CardType::Five, 5),
        (CardType::Six, 6),
        (CardType::Seven, 7),
        (CardType::Eight, 8),
        (CardType::Nine, 9),
        (CardType::Ten, 10),
        (CardType::Jack, 10),
        (CardType::Queen, 10),
        (CardType::King, 10),
    ];
    for (rank, points) in every {
        for is_dealer in [false, true] {
            let hand = hand_of(is_dealer, &[CardType::Five, rank]);
            assert_eq!(hand.hand_value(), 5 + points);
        }
    }
}

#[test]
fn player_ace_after_ten_counts_eleven() {
    let mut hand = hand_of(false, &[CardType::Ten]);
    assert_eq!(hand.hand_value(), 10);
    hand.add_card(card(CardType::Ace));
    assert_eq!(hand.hand_value(), 21);
    assert!(hand.has_blackjack());
    assert!(!hand.is_bust());
}

#[test]
fn player_ace_as_third_card_is_no_blackjack() {
    let hand = hand_of(false, &[CardType::Four, CardType::Six, CardType::Ace]);
    assert_eq!(hand.hand_value(), 21);
    assert!(!hand.has_blackjack());
}

#[test]
fn player_ace_counts_one_where_eleven_would_bust() {
    let hand = hand_of(false, &[CardType::Five, CardType::Six, CardType::Ace]);
    assert_eq!(hand.hand_value(), 12);
    let first = hand_of(false, &[CardType::Ace]);
    assert_eq!(first.hand_value(), 11);
    let two = hand_of(false, &[CardType::Ace, CardType::Ace]);
    assert_eq!(two.hand_value(), 12);
}

#[test]
fn player_ace_stays_as_it_was_counted() {
    let hand = hand_of(false, &[CardType::Ace, CardType::Five, CardType::Ten]);
    assert_eq!(hand.hand_value(), 26);
    assert!(hand.is_bust());
}

#[test]
fn dealer_ace_after_nine_counts_eleven() {
    let mut hand = hand_of(true, &[CardType::Nine]);
    assert_eq!(hand.hand_value(), 9);
    hand.add_card(card(CardType::Ace));
    assert_eq!(hand.hand_value(), 20);
}

#[test]
fn dealer_ace_counts_eleven_only_from_seventeen_to_twenty() {
    let cases = [
        (CardType::Two, 3),
        (CardType::Three, 4),
        (CardType::Four, 5),
        (CardType::Five, 6),
        (CardType::Six, 17),
        (CardType::Seven, 18),
        (CardType::Eight, 19),
        (CardType::Nine, 20),
        (CardType::Ten, 11),
        (CardType::King, 11),
    ];
    for (rank, total) in cases {
        let hand = hand_of(true, &[rank, CardType::Ace]);
        assert_eq!(hand.hand_value(), total);
        assert!(!hand.has_blackjack());
    }
    assert_eq!(hand_of(true, &[CardType::Ace]).hand_value(), 1);
    assert_eq!(hand_of(true, &[CardType::Ace, CardType::King]).hand_value(), 11);
}

#[test]
fn blackjack_is_two_cards_making_twenty_one() {
    assert!(hand_of(false, &[CardType::Ace, CardType::King]).has_blackjack());
    assert!(hand_of(false, &[CardType::Queen, CardType::Ace]).has_blackjack());
    assert!(!hand_of(false, &[CardType::Ten, CardType::Nine]).has_blackjack());
    assert!(!hand_of(false, &[CardType::Ten, CardType::King]).has_blackjack());
    assert!(!hand_of(false, &[CardType::Ace]).has_blackjack());
    assert!(!hand_of(false, &[CardType::Seven, CardType::Seven, CardType::Seven]).has_blackjack());
}

#[test]
fn split_needs_two_cards_of_one_rank() {
    let mut kings = Player::new(false);
    kings.add_card(Card::new(CardColor::Hearts, CardType::King));
    kings.add_card(Card::new(CardColor::Clubs, CardType::King));
    assert!(kings.can_split());
    let mut mixed = Player::new(false);
    mixed.add_card(Card::new(CardColor::Hearts, CardType::King));
    mixed.add_card(Card::new(CardColor::Clubs, CardType::Queen));
    assert!(!mixed.can_split());
    assert!(!hand_of(false, &[CardType::King]).can_split());
    assert!(!hand_of(false, &[CardType::Two, CardType::Two, CardType::Two]).can_split());
    assert!(hand_of(true, &[CardType::Ace, CardType::Ace]).can_split());
}

#[test]
fn hand_above_twenty_one_is_bust() {
    let hand = hand_of(false, &[CardType::Ten, CardType::Six, CardType::Seven]);
    assert_eq!(hand.hand_value(), 23);
    assert!(hand.is_bust());
    assert!(hand.is_terminal());
    assert!(!hand.is_standing());
    let fine = hand_of(false, &[CardType::Ten, CardType::Six, CardType::Five]);
    assert_eq!(fine.hand_value(), 21);
    assert!(!fine.is_bust());
    assert!(!fine.is_terminal());
}

#[test]
fn stand_ends_the_turn() {
    let mut hand = hand_of(false, &[CardType::Ten, CardType::Six]);
    hand.stand();
    assert!(hand.is_standing());
    assert!(hand.is_terminal());
    assert!(!hand.is_bust());
    assert_eq!(hand.hand_value(), 16);
    assert_eq!(hand.hand_count(), 2);
}

#[test]
fn full_hand_is_made_to_stand() {
    let mut hand = Player::new(false);
    for i in 0..9 {
        hand.add_card(card(CardType::Two));
        assert_eq!(hand.hand_count(), i + 1);
        assert!(!hand.is_standing());
    }
    assert_eq!(hand.hand_value(), 18);
    hand.add_card(card(CardType::Two));
    assert_eq!(hand.hand_count(), 10);
    assert_eq!(hand.hand_value(), 20);
    assert!(hand.is_standing());
    assert!(!hand.is_bust());
}

#[test]
fn full_hand_above_twenty_one_stands_and_is_bust() {
    let mut hand = Player::new(false);
    for _ in 0..9 {
        hand.add_card(card(CardType::Two));
    }
    hand.add_card(card(CardType::Four));
    assert_eq!(hand.hand_value(), 22);
    assert!(hand.is_standing());
    assert!(hand.is_bust());
}

#[test]
fn hit_takes_the_top_of_the_shoe() {
    let mut deck = Deck { cards: vec![card(CardType::Three), card(CardType::Nine)] };
    let mut hand = Player::new(false);
    hand.hit(&mut deck);
    assert_eq!(hand.get_player_cards(), vec![card(CardType::Nine)]);
    assert_eq!(deck.cards, vec![card(CardType::Three)]);
    hand.hit(&mut deck);
    assert_eq!(hand.get_player_cards(), vec![card(CardType::Nine), card(CardType::Three)]);
    assert_eq!(hand.hand_value(), 12);
    assert!(deck.cards.is_empty());
}

#[test]
fn hit_on_an_empty_shoe_adds_the_placeholder() {
    let mut deck = Deck { cards: Vec::new() };
    let mut hand = hand_of(false, &[CardType::Nine]);
    hand.hit(&mut deck);
    assert_eq!(hand.hand_count(), 2);
    assert_eq!(hand.hand_value(), 9);
    assert_eq!(hand.get_player_cards()[1], Card::new_empty());
}

#[test]
fn turning_a_card_keeps_the_total() {
    let mut hand = hand_of(true, &[CardType::Nine, CardType::Ace]);
    hand.set_face_down(1, true);
    let cards = hand.get_player_cards();
    assert!(!cards[0].face_down);
    assert!(cards[1].face_down);
    assert_eq!(cards[1].value, CardType::Ace);
    assert_eq!(cards[1].color, CardColor::Hearts);
    assert_eq!(hand.hand_value(), 20);
    hand.set_face_down(1, false);
    assert_eq!(hand.get_player_cards(), vec![card(CardType::Nine), card(CardType::Ace)]);
    hand.set_face_down(5, true);
    assert_eq!(hand.get_player_cards(), vec![card(CardType::Nine), card(CardType::Ace)]);
}

#[test]
fn suits_and_sides_do_not_count() {
    let mut a = Player::new(false);
    a.add_card(Card::new(CardColor::Hearts, CardType::Ace));
    a.add_card(Card::new(CardColor::Clubs, CardType::Nine));
    let mut b = Player::new(false);
    b.add_card(Card { color: CardColor::Diamond, value: CardType::Ace, face_down: true });
    b.add_card(Card { color: CardColor::Clover, value: CardType::Nine, face_down: true });
    assert_eq!(a.hand_value(), 20);
    assert_eq!(b.hand_value(), 20);
}
