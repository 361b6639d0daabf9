//! Cards as text: the symbols of rank and suit, a card in brackets, and a card drawn in a
//! frame of seven lines.

use vstd::prelude::*;
use vstd::string::StringExecFns;
use crate::card::{Card, CLUBS, DIAMONDS, HEARTS, SPADES};

verus! {

/// The number of lines of a card drawn in its frame.
pub const CARD_HEIGHT: usize = 7;

/// The symbol of a rank: `A` for the ace, the number for 2 to 10, `J`, `Q` and `K` for the
/// faces, and `?` for a rank that no deck holds.
pub open spec fn rank_text(rank: u8) -> Seq<char> {
    if rank == 1 {
        "A"@
    } else if rank == 2 {
        "2"@
    } else if rank == 3 {
        "3"@
    } else if rank == 4 {
        "4"@
    } else if rank == 5 {
        "5"@
    } else if rank == 6 {
        "6"@
    } else if rank == 7 {
        "7"@
    } else if rank == 8 {
        "8"@
    } else if rank == 9 {
        "9"@
    } else if rank == 10 {
        "10"@
    } else if rank == 11 {
        "J"@
    } else if rank == 12 {
        "Q"@
    } else if rank == 13 {
        "K"@
    } else {
        "?"@
    }
}

/// The symbol of a suit, and `?` for a suit that no deck holds.
pub open spec fn suit_text(suit: u8) -> Seq<char> {
    if suit == HEARTS {
        "♥"@
    } else if suit == DIAMONDS {
        "♦"@
    } else if suit == CLUBS {
        "♣"@
    } else if suit == SPADES {
        "♠"@
    } else {
        "?"@
    }
}

/// A text with a blank behind it where it is a single character.
pub open spec fn padded_right(text: Seq<char>) -> Seq<char> {
    if text.len() < 2 {
        text + " "@
    } else {
        text
    }
}

/// A text with a blank before it where it is a single character.
pub open spec fn padded_left(text: Seq<char>) -> Seq<char> {
    if text.len() < 2 {
        " "@ + text
    } else {
        text
    }
}

/// A card in brackets: its rank, then its suit.
pub open spec fn mini_card_text(card: Card) -> Seq<char> {
    "["@ + rank_text(card.rank) + suit_text(card.suit) + "]"@
}

/// The face of a card in its frame: the rank in the upper left and the lower right corner,
/// the suit in the middle.
pub open spec fn card_face(card: Card) -> Seq<Seq<char>> {
    seq![
        "┌─────────┐"@,
        "│ "@ + padded_right(rank_text(card.rank)) + "      │"@,
        "│         │"@,
        "│    "@ + suit_text(card.suit) + "    │"@,
        "│         │"@,
        "│      "@ + padded_left(rank_text(card.rank)) + " │"@,
        "└─────────┘"@,
    ]
}

/// The back of a card in its frame.
pub open spec fn card_back() -> Seq<Seq<char>> {
    seq![
        "┌─────────┐"@,
        "│░░░░░░░░░│"@,
        "│░░░░░░░░░│"@,
        "│░░░░░░░░░│"@,
        "│░░░░░░░░░│"@,
        "│░░░░░░░░░│"@,
        "└─────────┘"@,
    ]
}

/// Whether the lines hold the given texts, one for one.
pub open spec fn lines_are(lines: Seq<String>, texts: Seq<Seq<char>>) -> bool {
    &&& lines.len() == texts.len()
    &&& forall|i: int| 0 <= i < lines.len() ==> (#[trigger] lines[i])@ == texts[i]
}

/// Draws cards as text.
pub struct CardRenderer;

impl CardRenderer {
    /// The face of a card in its frame, line by line.
    pub fn render_card(card: &Card) -> (lines: Vec<String>)
        ensures
            lines_are(lines@, card_face(*card)),
    {
        let rank = Self::rank_symbol(card.rank);
        let suit = Self::suit_symbol(card.suit);
        let narrow = rank.unicode_len() < 2;
        let mut upper = String::from_str("│ ");
        upper.append(rank);
        if narrow {
            upper.append(" ");
        }
        upper.append("      │");
        let mut middle = String::from_str("│    ");
        middle.append(suit);
        middle.append("    │");
        let mut lower = String::from_str("│      ");
        if narrow {
            lower.append(" ");
        }
        lower.append(rank);
        lower.append(" │");
        proof {
            assert("│ "@ + rank@ + " "@ + "      │"@ =~= "│ "@ + (rank@ + " "@) + "      │"@);
            assert("│      "@ + " "@ + rank@ + " │"@ =~= "│      "@ + (" "@ + rank@) + " │"@);
        }
        let mut lines: Vec<String> = Vec::new();
        lines.push(String::from_str("┌─────────┐"));
        lines.push(upper);
        lines.push(String::from_str("│         │"));
        lines.push(middle);
        lines.push(String::from_str("│         │"));
        lines.push(lower);
        lines.push(String::from_str("└─────────┘"));
        lines
    }

    /// The back of a card in its frame, line by line.
    pub fn render_card_back() -> (lines: Vec<String>)
        ensures
            lines_are(lines@, card_back()),
    {
        let mut lines: Vec<String> = Vec::new();
        lines.push(String::from_str("┌─────────┐"));
        lines.push(String::from_str("│░░░░░░░░░│"));
        lines.push(String::from_str("│░░░░░░░░░│"));
        lines.push(String::from_str("│░░░░░░░░░│"));
        lines.push(String::from_str("│░░░░░░░░░│"));
        lines.push(String::from_str("│░░░░░░░░░│"));
        lines.push(String::from_str("└─────────┘"));
        lines
    }

    /// A card in brackets: its rank, then its suit.
    pub fn render_mini_card(card: &Card) -> (text: String)
        ensures
            text@ == mini_card_text(*card),
    {
        let mut text = String::from_str("[");
        text.append(Self::rank_symbol(card.rank));
        text.append(Self::suit_symbol(card.suit));
        text.append("]");
        text
    }

    /// The symbol of a rank.
    pub fn rank_symbol(rank: u8) -> (symbol: &'static str)
        ensures
            symbol@ == rank_text(rank),
    {
        match rank {
            1 => "A",
            2 => "2",
            3 => "3",
            4 => "4",
            5 => "5",
            6 => "6",
            7 => "7",
            8 => "8",
            9 => "9",
            10 => "10",
            11 => "J",
            12 => "Q",
            13 => "K",
            _ => "?",
        }
    }

    /// The symbol of a suit.
    pub fn suit_symbol(suit: u8) -> (symbol: &'static str)
        ensures
            symbol@ == suit_text(suit),
    {
        match suit {
            HEARTS => "♥",
            DIAMONDS => "♦",
            CLUBS => "♣",
            SPADES => "♠",
            _ => "?",
        }
    }
}

/// A card drawn in its frame has seven lines of eleven characters each, whatever the card.
pub proof fn lemma_card_face_size(card: Card)
    ensures
        card_face(card).len() == CARD_HEIGHT,
        card_back().len() == CARD_HEIGHT,
        forall|i: int| 0 <= i < CARD_HEIGHT ==> (#[trigger] card_face(card)[i]).len() == 11,
        forall|i: int| 0 <= i < CARD_HEIGHT ==> (#[trigger] card_back()[i]).len() == 11,
{
    reveal_strlit("A");
    reveal_strlit("2");
    reveal_strlit("3");
    reveal_strlit("4");
    reveal_strlit("5");
    reveal_strlit("6");
    reveal_strlit("7");
    reveal_strlit("8");
    reveal_strlit("9");
    reveal_strlit("10");
    reveal_strlit("J");
    reveal_strlit("Q");
    reveal_strlit("K");
    reveal_strlit("?");
    reveal_strlit("♥");
    reveal_strlit("♦");
    reveal_strlit("♣");
    reveal_strlit("♠");
    reveal_strlit(" ");
    reveal_strlit("┌─────────┐");
    reveal_strlit("│ ");
    reveal_strlit("      │");
    reveal_strlit("│         │");
    reveal_strlit("│    ");
    reveal_strlit("    │");
    reveal_strlit("│      ");
    reveal_strlit(" │");
    reveal_strlit("└─────────┘");
    reveal_strlit("│░░░░░░░░░│");
}

} // verus!
