//! The shoe: the cards of one or more decks, shuffled, drawn from the top.

use crate::cards::{Card, CardColor, CardType};
use rand::rngs::ThreadRng;
use rand::seq::SliceRandom;
use vstd::arithmetic::div_mod::lemma_fundamental_div_mod_converse;
use vstd::prelude::*;

verus! {

/// The number of ranks that a deck holds.
pub const RANKS: u8 = 13;

/// The number of suits that a deck holds.
pub const SUITS: u8 = 4;

/// The ranks of a deck in their fixed order.
pub open spec fn rank_at(i: int) -> CardType {
    if i == 0 {
        CardType::Two
    } else if i == 1 {
        CardType::Three
    } else if i == 2 {
        CardType::Four
    } else if i == 3 {
        CardType::Five
    } else if i == 4 {
        CardType::Six
    } else if i == 5 {
        CardType::Seven
    } else if i == 6 {
        CardType::Eight
    } else if i == 7 {
        CardType::Nine
    } else if i == 8 {
        CardType::Ten
    } else if i == 9 {
        CardType::Jack
    } else if i == 10 {
        CardType::Queen
    } else if i == 11 {
        CardType::King
    } else if i == 12 {
        CardType::Ace
    } else {
        CardType::Empty
    }
}

/// The suits of a deck in their fixed order.
pub open spec fn suit_at(i: int) -> CardColor {
    if i == 0 {
        CardColor::Hearts
    } else if i == 1 {
        CardColor::Clubs
    } else if i == 2 {
        CardColor::Clover
    } else if i == 3 {
        CardColor::Diamond
    } else {
        CardColor::Empty
    }
}

/// The cards of `copies` decks before they are shuffled: rank by rank, within
/// a rank suit by suit, and each card as often as there are decks. All lie
/// face up.
pub open spec fn sorted_cards(copies: nat) -> Seq<Card> {
    Seq::new(
        52 * copies,
        |i: int|
            Card {
                color: suit_at((i / (copies as int)) % 4),
                value: rank_at(i / (4 * (copies as int))),
                face_down: false,
            },
    )
}

/// The card that the next draw hands out: the last of the sequence, or the
/// placeholder once nothing is left.
pub open spec fn next_card(cards: Seq<Card>) -> Card {
    if cards.len() > 0 {
        cards.last()
    } else {
        Card::empty()
    }
}

/// What is left after one draw.
pub open spec fn after_draw(cards: Seq<Card>) -> Seq<Card> {
    if cards.len() > 0 {
        cards.drop_last()
    } else {
        cards
    }
}

/// The rank at a place of the fixed order.
pub fn rank_of(i: u8) -> (rank: CardType)
    ensures
        rank == rank_at(i as int),
{
    match i {
        0 => CardType::Two,
        1 => CardType::Three,
        2 => CardType::Four,
        3 => CardType::Five,
        4 => CardType::Six,
        5 => CardType::Seven,
        6 => CardType::Eight,
        7 => CardType::Nine,
        8 => CardType::Ten,
        9 => CardType::Jack,
        10 => CardType::Queen,
        11 => CardType::King,
        12 => CardType::Ace,
        _ => CardType::Empty,
    }
}

/// The suit at a place of the fixed order.
pub fn suit_of(i: u8) -> (suit: CardColor)
    ensures
        suit == suit_at(i as int),
{
    match i {
        0 => CardColor::Hearts,
        1 => CardColor::Clubs,
        2 => CardColor::Clover,
        3 => CardColor::Diamond,
        _ => CardColor::Empty,
    }
}

/// Where the card of rank `v`, suit `c` and copy `k` stands among the sorted
/// cards of `n` decks, and that the place gives back all three.
proof fn lemma_place(v: int, c: int, k: int, n: int)
    requires
        0 <= v < 13,
        0 <= c < 4,
        0 <= k < n,
    ensures
        0 <= (v * 4 + c) * n + k < 52 * n,
        ((v * 4 + c) * n + k) / n == v * 4 + c,
        (v * 4 + c) % 4 == c,
        ((v * 4 + c) * n + k) / (4 * n) == v,
{
    let q = v * 4 + c;
    let j = q * n + k;
    assert(0 <= q * n && (q + 1) * n <= 52 * n && (q + 1) * n == q * n + n) by (nonlinear_arith)
        requires
            0 <= q < 52,
            0 < n,
    ;
    lemma_fundamental_div_mod_converse(j, n, q, k);
    lemma_fundamental_div_mod_converse(q, 4, v, c);
    assert(j == v * (4 * n) + (c * n + k) && 0 <= c * n + k < 4 * n) by (nonlinear_arith)
        requires
            j == (v * 4 + c) * n + k,
            0 <= c < 4,
            0 <= k < n,
    ;
    lemma_fundamental_div_mod_converse(j, 4 * n, v, c * n + k);
}

/// A shoe. The card drawn next is the last one of `cards`.
pub struct Deck {
    pub cards: Vec<Card>,
}

impl View for Deck {
    type V = Seq<Card>;

    open spec fn view(&self) -> Seq<Card> {
        self.cards@
    }
}

/// The thread's random number generator, of the crate `rand`. Nothing is
/// known of a value of it.
#[verifier::external_type_specification]
#[verifier::external_body]
pub struct ExThreadRng(ThreadRng);

/// `rand::thread_rng`: hands out the generator of the running thread. Nothing
/// is claimed of what it returns. It panics if the operating system cannot
/// seed the generator, which nothing stated here rules out.
pub assume_specification[ rand::thread_rng ]() -> (rng: ThreadRng);

/// `rand::seq::SliceRandom::shuffle` on the cards: it swaps the cards among
/// their places, so that afterwards the same cards are there, each as often
/// as before. In which order they stand is left open.
#[verifier::external_body]
fn shuffle_cards(cards: &mut Vec<Card>, rng: &mut ThreadRng)
    ensures
        final(cards)@.len() == old(cards)@.len(),
        final(cards)@.to_multiset() == old(cards)@.to_multiset(),
{
    cards.shuffle(rng);
}

impl Deck {
    /// The cards of `num_decks` decks in their sorted order.
    pub fn sorted(num_decks: u8) -> (deck: Deck)
        ensures
            deck@ == sorted_cards(num_decks as nat),
    {
        let ghost n = num_decks as int;
        let ghost goal = sorted_cards(num_decks as nat);
        let mut cards: Vec<Card> = Vec::new();
        let mut v: u8 = 0;
        while v < RANKS
            invariant
                v <= RANKS,
                n == num_decks as int,
                goal == sorted_cards(num_decks as nat),
                cards@.len() == (v * 4) * n,
                forall|j: int| 0 <= j < cards@.len() ==> cards@[j] == goal[j],
            decreases RANKS - v,
        {
            let mut c: u8 = 0;
            while c < SUITS
                invariant
                    v < RANKS,
                    c <= SUITS,
                    n == num_decks as int,
                    goal == sorted_cards(num_decks as nat),
                    cards@.len() == (v * 4 + c) * n,
                    forall|j: int| 0 <= j < cards@.len() ==> cards@[j] == goal[j],
                decreases SUITS - c,
            {
                let card = Card::new(suit_of(c), rank_of(v));
                let mut k: u8 = 0;
                while k < num_decks
                    invariant
                        v < RANKS,
                        c < SUITS,
                        k <= num_decks,
                        n == num_decks as int,
                        goal == sorted_cards(num_decks as nat),
                        card == (Card {
                            color: suit_at(c as int),
                            value: rank_at(v as int),
                            face_down: false,
                        }),
                        cards@.len() == (v * 4 + c) * n + k,
                        forall|j: int| 0 <= j < cards@.len() ==> cards@[j] == goal[j],
                    decreases num_decks - k,
                {
                    proof {
                        lemma_place(v as int, c as int, k as int, n);
                    }
                    cards.push(card);
                    k = k + 1;
                }
                assert((v * 4 + c) * n + n == (v * 4 + (c + 1)) * n) by (nonlinear_arith);
                c = c + 1;
            }
            assert((v * 4 + 4) * n == ((v + 1) * 4) * n) by (nonlinear_arith);
            v = v + 1;
        }
        assert((13 * 4) * n == 52 * n) by (nonlinear_arith);
        assert(cards@ =~= goal);
        Deck { cards }
    }

    /// A shoe of `num_decks` decks, shuffled: every card of suit and rank is
    /// in it once for each deck, face up, in an order that chance decides.
    pub fn new(num_decks: u8) -> (deck: Deck)
        ensures
            deck@.len() == 52 * num_decks,
            deck@.to_multiset() == sorted_cards(num_decks as nat).to_multiset(),
    {
        let mut deck = Deck::sorted(num_decks);
        let mut rng = rand::thread_rng();
        shuffle_cards(&mut deck.cards, &mut rng);
        deck
    }

    /// The cards of the shoe in words, one line for each, the card that is
    /// drawn last first.
    pub fn print_deck(&self) -> (lines: Vec<String>)
        ensures
            lines@.len() == self@.len(),
            forall|i: int| 0 <= i < self@.len() ==> (#[trigger] lines@[i])@ == self@[i].text(),
    {
        let mut lines: Vec<String> = Vec::new();
        let mut i: usize = 0;
        while i < self.cards.len()
            invariant
                i <= self.cards.len(),
                lines@.len() == i,
                forall|j: int| 0 <= j < i ==> (#[trigger] lines@[j])@ == self@[j].text(),
            decreases self.cards.len() - i,
        {
            lines.push(self.cards[i].print_card());
            i = i + 1;
        }
        lines
    }

    /// Draws the top card. A shoe that has run out hands out the placeholder
    /// card and stays empty.
    pub fn take_card(&mut self) -> (card: Card)
        ensures
            card == next_card(old(self)@),
            final(self)@ == after_draw(old(self)@),
    {
        let c = self.cards.pop();
        match c {
            Some(card) => card,
            None => Card::new_empty(),
        }
    }
}

} // verus!
