//! A Baccarat round engine: cards, card sources, the third-card rules, winner determination,
//! and the settlement of main and side wagers under four house-rule variants.
//!
//! The engine deals from a single deck or from a shoe with a cut card, plays a round in one
//! step, and says what each wager pays on the round. It does no input or output; the two table
//! sessions in [`ui`] and [`tui`] hold what a front end decides between reading a key and
//! drawing the table.
//!
//! - [`card`], [`state`], [`source`]: cards, hand scores, decks and shoes
//! - [`rules`], [`game`]: the third-card table and the play of a round
//! - [`payout`], [`bonus`], [`betting`]: the payout tables, the side wagers, and a bettor's
//!   balance and statistics
//! - [`ui`], [`tui`], [`animation`], [`card_renderer`], [`text`]: table sessions, the staged
//!   reveal of cards, and cards as text

pub mod animation;
pub mod betting;
pub mod bonus;
pub mod card;
pub mod card_renderer;
pub mod game;
pub mod mode;
pub mod payout;
pub mod rules;
pub mod source;
pub mod state;
pub mod text;
pub mod tui;
pub mod ui;

pub use animation::{AnimationState, CardAnimation};
pub use betting::{BetError, BettingRound, HitCount, RoundStatistics};
pub use bonus::{BonusBets, BonusKind};
pub use card::{Card, Suit, CLUBS, DIAMONDS, HEARTS, SPADES};
pub use card_renderer::CardRenderer;
pub use game::BaccaratGame;
pub use mode::GameMode;
pub use payout::Selection;
pub use source::{CardSource, Deck, Randomness, Shoe};
pub use state::GameState;
pub use tui::{GameStats, RatatuiUI};
pub use ui::{BetType, GameStatistics, Key, TerminalUI};
