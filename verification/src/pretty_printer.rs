//! The table as text: both hands drawn card by card.

use crate::cards::Card;
use crate::game::{Game, GameView};
use crate::hand::Player;
use vstd::prelude::*;

verus! {

/// The number of lines that the picture of a hand takes.
pub const CARD_ROWS: u8 = 7;

/// One line of the picture of a card, eight characters wide. The first and
/// the last line are the card's edge. A card that lies face up shows its rank
/// in the second line and its suit in the fourth; one that lies face down
/// shows a cross.
pub open spec fn cell(card: Card, row: int) -> Seq<char> {
    if row == 0 || row == 6 {
        "+------+"@
    } else if card.face_down {
        if row == 1 || row == 5 {
            "|+    +|"@
        } else if row == 3 {
            "|  ++  |"@
        } else {
            "| +  + |"@
        }
    } else if row == 1 {
        "|    "@ + card.value.name() + "|"@
    } else if row == 3 {
        "|  "@ + card.color.symbol() + "   |"@
    } else {
        "|      |"@
    }
}

/// One line of the picture of a hand: that line of each card, side by side.
pub open spec fn row_text(cards: Seq<Card>, row: int) -> Seq<char>
    decreases cards.len(),
{
    if cards.len() == 0 {
        Seq::<char>::empty()
    } else {
        row_text(cards.drop_last(), row) + cell(cards.last(), row)
    }
}

/// The first `rows` lines of the picture of a hand, with a line break between
/// two lines and none at the end.
pub open spec fn rows_text(cards: Seq<Card>, rows: int) -> Seq<char>
    decreases rows,
{
    if rows <= 0 {
        Seq::<char>::empty()
    } else if rows == 1 {
        row_text(cards, 0)
    } else {
        rows_text(cards, rows - 1) + "\n"@ + row_text(cards, rows - 1)
    }
}

/// The picture of a hand.
pub open spec fn hand_picture(cards: Seq<Card>) -> Seq<char> {
    rows_text(cards, CARD_ROWS as int)
}

/// The whole table: the code that clears the screen, then the dealer's hand
/// and the player's hand under their headings.
pub open spec fn table_text(game: GameView) -> Seq<char> {
    "\x1B[2J\x1B[H"@ + "DEALER:\n"@ + hand_picture(game.dealer.cards) + "\n\n"@ + "PLAYER:\n"@
        + hand_picture(game.player.cards) + "\n"@
}

/// Adds one line of the picture of a card to the text.
fn push_cell(text: &mut String, card: &Card, row: u8)
    ensures
        final(text)@ == old(text)@ + cell(*card, row as int),
{
    if row == 0 || row == 6 {
        text.append("+------+");
    } else if card.face_down {
        if row == 1 || row == 5 {
            text.append("|+    +|");
        } else if row == 3 {
            text.append("|  ++  |");
        } else {
            text.append("| +  + |");
        }
    } else if row == 1 {
        let name = card.value.to_name();
        text.append("|    ");
        text.push(name[0]);
        text.push(name[1]);
        text.append("|");
        assert(text@ =~= old(text)@ + cell(*card, row as int));
    } else if row == 3 {
        text.append("|  ");
        text.append(card.color.to_value());
        text.append("   |");
        assert(text@ =~= old(text)@ + cell(*card, row as int));
    } else {
        text.append("|      |");
    }
}

/// The picture of a hand: seven lines, each card eight characters wide.
pub fn pp_cards(p: &Player) -> (text: String)
    ensures
        text@ == hand_picture(p@.cards),
{
    let cards = p.get_player_cards();
    let mut text = String::new();
    let mut row: u8 = 0;
    while row < CARD_ROWS
        invariant
            row <= CARD_ROWS,
            cards@ == p@.cards,
            text@ == rows_text(cards@, row as int),
        decreases CARD_ROWS - row,
    {
        if row > 0 {
            text.append("\n");
        }
        let ghost before = text@;
        let mut c: usize = 0;
        while c < cards.len()
            invariant
                c <= cards.len(),
                text@ == before + row_text(cards@.take(c as int), row as int),
            decreases cards.len() - c,
        {
            push_cell(&mut text, &cards[c], row);
            proof {
                assert(cards@.take(c + 1).drop_last() =~= cards@.take(c as int));
                assert(text@ =~= before + row_text(cards@.take(c + 1), row as int));
            }
            c = c + 1;
        }
        proof {
            assert(cards@.take(c as int) =~= cards@);
            assert(text@ =~= rows_text(cards@, row + 1));
        }
        row = row + 1;
    }
    text
}

/// The whole table as text, ready to be written to the terminal.
pub fn print_game(g: &Game) -> (text: String)
    ensures
        text@ == table_text(g@),
{
    let mut text = String::new();
    text.append("\x1B[2J\x1B[H");
    text.append("DEALER:\n");
    let dealer = pp_cards(&g.dealer);
    text.append(dealer.as_str());
    text.append("\n\n");
    text.append("PLAYER:\n");
    let player = pp_cards(&g.player);
    text.append(player.as_str());
    text.append("\n");
    assert(text@ =~= table_text(g@));
    text
}

} // verus!
