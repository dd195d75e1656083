//! Suits, ranks and cards, with the points a rank is worth.

use vstd::prelude::*;

verus! {

/// `String::push` of std: the character is added at the end of the string.
pub assume_specification[ String::push ](text: &mut String, c: char)
    ensures
        final(text)@ == old(text)@.push(c),
;

/// The suit of a card. It decides nothing in the game and only shows on the
/// table. `Empty` is the suit of the placeholder card.
#[derive(Clone, Copy, PartialEq, Eq, Structural, Debug)]
pub enum CardColor {
    Hearts,
    Clubs,
    Clover,
    Diamond,
    Empty,
}

impl CardColor {
    /// The symbol that stands for the suit, as a sequence of characters.
    pub open spec fn symbol(self) -> Seq<char> {
        match self {
            CardColor::Clover => seq!['\u{2663}'],
            CardColor::Clubs => seq!['\u{2660}'],
            CardColor::Diamond => seq!['\u{2666}'],
            CardColor::Hearts => seq!['\u{2665}'],
            CardColor::Empty => Seq::<char>::empty(),
        }
    }

    /// The symbol that stands for the suit on the table.
    pub fn to_value(&self) -> (text: &'static str)
        ensures
            text@ == self.symbol(),
    {
        proof {
            reveal_strlit("\u{2663}");
            reveal_strlit("\u{2660}");
            reveal_strlit("\u{2666}");
            reveal_strlit("\u{2665}");
            reveal_strlit("");
        }
        let text = match self {
            CardColor::Clover => "\u{2663}",
            CardColor::Clubs => "\u{2660}",
            CardColor::Diamond => "\u{2666}",
            CardColor::Hearts => "\u{2665}",
            CardColor::Empty => "",
        };
        assert(text@ =~= self.symbol());
        text
    }
}

/// The rank of a card. `Empty` is the rank of the placeholder card.
#[derive(Clone, Copy, PartialEq, Eq, Structural, Debug)]
pub enum CardType {
    Two,
    Three,
    Four,
    Five,
    Six,
    Seven,
    Eight,
    Nine,
    Ten,
    Jack,
    Queen,
    King,
    Ace,
    Empty,
}

impl CardType {
    /// The points a rank is worth: its number for two to ten, ten for a face
    /// card, eleven or one for an ace counted high or low, nothing for the
    /// placeholder.
    pub open spec fn points(self, ace_high: bool) -> int {
        match self {
            CardType::Ace => if ace_high { 11 } else { 1 },
            CardType::Two => 2,
            CardType::Three => 3,
            CardType::Four => 4,
            CardType::Five => 5,
            CardType::Six => 6,
            CardType::Seven => 7,
            CardType::Eight => 8,
            CardType::Nine => 9,
            CardType::Ten => 10,
            CardType::Jack => 10,
            CardType::Queen => 10,
            CardType::King => 10,
            CardType::Empty => 0,
        }
    }

    /// The two characters that name the rank on the table.
    pub open spec fn name(self) -> Seq<char> {
        match self {
            CardType::Ace => seq!['A', ' '],
            CardType::Two => seq!['2', ' '],
            CardType::Three => seq!['3', ' '],
            CardType::Four => seq!['4', ' '],
            CardType::Five => seq!['5', ' '],
            CardType::Six => seq!['6', ' '],
            CardType::Seven => seq!['7', ' '],
            CardType::Eight => seq!['8', ' '],
            CardType::Nine => seq!['9', ' '],
            CardType::Ten => seq!['1', '0'],
            CardType::Jack => seq!['J', ' '],
            CardType::Queen => seq!['Q', ' '],
            CardType::King => seq!['K', ' '],
            CardType::Empty => seq![' ', ' '],
        }
    }

    /// The points of the rank, an ace counted as the caller says.
    pub fn to_value(&self, is_ace_high: bool) -> (value: u8)
        ensures
            value as int == self.points(is_ace_high),
    {
        match self {
            CardType::Ace => if is_ace_high { 11 } else { 1 },
            CardType::Two => 2,
            CardType::Three => 3,
            CardType::Four => 4,
            CardType::Five => 5,
            CardType::Six => 6,
            CardType::Seven => 7,
            CardType::Eight => 8,
            CardType::Nine => 9,
            CardType::Ten => 10,
            CardType::Jack => 10,
            CardType::Queen => 10,
            CardType::King => 10,
            CardType::Empty => 0,
        }
    }

    /// The two characters that name the rank on the table.
    pub fn to_name(&self) -> (name: [char; 2])
        ensures
            name@ == self.name(),
    {
        let name = match self {
            CardType::Ace => ['A', ' '],
            CardType::Two => ['2', ' '],
            CardType::Three => ['3', ' '],
            CardType::Four => ['4', ' '],
            CardType::Five => ['5', ' '],
            CardType::Six => ['6', ' '],
            CardType::Seven => ['7', ' '],
            CardType::Eight => ['8', ' '],
            CardType::Nine => ['9', ' '],
            CardType::Ten => ['1', '0'],
            CardType::Jack => ['J', ' '],
            CardType::Queen => ['Q', ' '],
            CardType::King => ['K', ' '],
            CardType::Empty => [' ', ' '],
        };
        assert(name@ =~= self.name());
        name
    }
}

/// A card: its suit, its rank, and whether it lies face down on the table.
#[derive(Clone, Copy, PartialEq, Eq, Structural, Debug)]
pub struct Card {
    pub color: CardColor,
    pub value: CardType,
    pub face_down: bool,
}

impl Card {
    /// The placeholder card: no suit, no rank, face up.
    pub open spec fn empty() -> Card {
        Card { color: CardColor::Empty, value: CardType::Empty, face_down: false }
    }

    /// The card in words: its suit's symbol and its rank's name, in round
    /// brackets with a comma between them.
    pub open spec fn text(self) -> Seq<char> {
        "("@ + self.color.symbol() + ", "@ + self.value.name() + ")"@
    }

    /// A card of the given suit and rank, face up.
    pub fn new(c: CardColor, val: CardType) -> (card: Card)
        ensures
            card == (Card { color: c, value: val, face_down: false }),
    {
        Card { color: c, value: val, face_down: false }
    }

    /// The placeholder card, which a shoe hands out once it has run out.
    pub fn new_empty() -> (card: Card)
        ensures
            card == Card::empty(),
    {
        Card { color: CardColor::Empty, value: CardType::Empty, face_down: false }
    }

    /// Gives the card another suit and rank. Which side is up stays.
    pub fn overwrite_card(&mut self, color: CardColor, value: CardType)
        ensures
            *final(self) == (Card { color: color, value: value, face_down: old(self).face_down }),
    {
        self.color = color;
        self.value = value;
    }

    /// The card in words, as a line for the terminal.
    pub fn print_card(&self) -> (line: String)
        ensures
            line@ == self.text(),
    {
        let name = self.value.to_name();
        let mut line = String::new();
        line.append("(");
        line.append(self.color.to_value());
        line.append(", ");
        line.push(name[0]);
        line.push(name[1]);
        line.append(")");
        assert(line@ =~= self.text());
        line
    }

    /// The points of the card with an ace counted high.
    pub fn get_value(&self) -> (value: u8)
        ensures
            value as int == self.value.points(true),
    {
        self.value.to_value(true)
    }
}

} // verus!
