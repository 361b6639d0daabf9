use baccarat::animation::CardAnimation;
use baccarat::card::{Card, CLUBS, DIAMONDS, HEARTS, SPADES};
use baccarat::card_renderer::{CardRenderer, CARD_HEIGHT};
use baccarat::text::decimal;
use baccarat::ui::TerminalUI;

#[test]
fn rank_symbols() {
    let expected = ["?", "A", "2", "3", "4", "5", "6", "7", "8", "9", "10", "J", "Q", "K", "?"];
    for rank in 0..=14u8 {
        assert_eq!(CardRenderer::rank_symbol(rank), expected[rank as usize]);
    }
    assert_eq!(CardRenderer::rank_symbol(255), "?");
}

#[test]
fn suit_symbols() {
    assert_eq!(CardRenderer::suit_symbol(HEARTS), "♥");
    assert_eq!(CardRenderer::suit_symbol(DIAMONDS), "♦");
    assert_eq!(CardRenderer::suit_symbol(CLUBS), "♣");
    assert_eq!(CardRenderer::suit_symbol(SPADES), "♠");
    assert_eq!(CardRenderer::suit_symbol(4), "?");
}

#[test]
fn mini_cards() {
    assert_eq!(CardRenderer::render_mini_card(&Card::new(HEARTS, 1)), "[A♥]");
    assert_eq!(CardRenderer::render_mini_card(&Card::new(SPADES, 10)), "[10♠]");
    assert_eq!(CardRenderer::render_mini_card(&Card::new(CLUBS, 12)), "[Q♣]");
    assert_eq!(CardRenderer::render_mini_card(&Card::new(9, 0)), "[??]");
}

#[test]
fn card_with_a_rank_of_one_character() {
    assert_eq!(
        CardRenderer::render_card(&Card::new(DIAMONDS, 13)),
        vec![
            "┌─────────┐",
            "│ K       │",
            "│         │",
            "│    ♦    │",
            "│         │",
            "│       K │",
            "└─────────┘",
        ]
    );
}

#[test]
fn card_with_a_rank_of_two_characters() {
    assert_eq!(
        CardRenderer::render_card(&Card::new(CLUBS, 10)),
        vec![
            "┌─────────┐",
            "│ 10      │",
            "│         │",
            "│    ♣    │",
            "│         │",
            "│      10 │",
            "└─────────┘",
        ]
    );
}

#[test]
fn every_card_is_drawn_seven_lines_high_and_eleven_wide() {
    assert_eq!(CARD_HEIGHT, 7);
    for suit in 0..=4u8 {
        for rank in 0..=14u8 {
            let lines = CardRenderer::render_card(&Card::new(suit, rank));
            assert_eq!(lines.len(), 7);
            for line in &lines {
                assert_eq!(line.chars().count(), 11);
            }
        }
    }
}

#[test]
fn card_back() {
    let lines = CardRenderer::render_card_back();
    assert_eq!(
        lines,
        vec![
            "┌─────────┐",
            "│░░░░░░░░░│",
            "│░░░░░░░░░│",
            "│░░░░░░░░░│",
            "│░░░░░░░░░│",
            "│░░░░░░░░░│",
            "└─────────┘",
        ]
    );
}

#[test]
fn animation_shows_the_back_until_the_card_is_revealed() {
    let card = Card::new(SPADES, 7);
    let mut animation = CardAnimation::new(card, 0);
    assert_eq!(animation.render(), CardRenderer::render_card_back());
    animation.reveal_card();
    assert_eq!(animation.render(), CardRenderer::render_card(&card));
    assert_ne!(animation.render(), CardRenderer::render_card_back());
}

#[test]
fn numbers_in_decimal_digits() {
    for number in 0..=255u8 {
        assert_eq!(decimal(number), number.to_string());
    }
}

#[test]
fn cards_in_a_line_of_text() {
    let ui = TerminalUI::new();
    assert_eq!(ui.card_display(&Card::new(HEARTS, 1)), "A♥");
    assert_eq!(ui.card_display(&Card::new(DIAMONDS, 2)), "2♦");
    assert_eq!(ui.card_display(&Card::new(CLUBS, 10)), "10♣");
    assert_eq!(ui.card_display(&Card::new(SPADES, 11)), "J♠");
    assert_eq!(ui.card_display(&Card::new(SPADES, 12)), "Q♠");
    assert_eq!(ui.card_display(&Card::new(SPADES, 13)), "K♠");
    assert_eq!(ui.card_display(&Card::new(HEARTS, 0)), "0♥");
    assert_eq!(ui.card_display(&Card::new(7, 14)), "14?");
    assert_eq!(ui.card_display(&Card::new(HEARTS, 255)), "255♥");
}
