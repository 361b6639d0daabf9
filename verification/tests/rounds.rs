use baccarat::bonus::BonusBets;
use baccarat::card::{Card, CLUBS, DIAMONDS, HEARTS, SPADES};
use baccarat::game::BaccaratGame;
use baccarat::mode::GameMode;
use baccarat::rules::banker_should_draw;
use baccarat::source::{CardSource, Deck};
use baccarat::state::{GameState, WINNER_BANKER, WINNER_NONE, WINNER_PLAYER, WINNER_TIE};

/// A game whose source deals cards of the given ranks in the given order.
fn game_dealing(mode: GameMode, ranks: &[u8]) -> BaccaratGame {
    let cards: Vec<Card> = ranks.iter().rev().map(|&rank| Card::new(HEARTS, rank)).collect();
    let mut game = BaccaratGame::with_mode(mode);
    game.card_source = CardSource::SingleDeck(Deck::from_cards(cards));
    game
}

fn ranks_of(hand: &[Card]) -> Vec<u8> {
    hand.iter().map(|card| card.rank).collect()
}

fn check_round_invariants(game: &BaccaratGame, remaining_before: usize) {
    let dealt = remaining_before - game.card_source.cards_remaining();
    assert!((4..=6).contains(&dealt));
    assert_eq!(game.player_hand.len() + game.banker_hand.len(), dealt);
    assert!(game.player_hand.len() == 2 || game.player_hand.len() == 3);
    assert!(game.banker_hand.len() == 2 || game.banker_hand.len() == 3);
    assert_eq!(game.state.round_complete, 1);
    assert!(game.state.winner == 1 || game.state.winner == 2 || game.state.winner == 3);
    assert_eq!(game.state.player_score, GameState::calculate_hand_score(&game.player_hand));
    assert_eq!(game.state.banker_score, GameState::calculate_hand_score(&game.banker_hand));
    assert!(game.state.player_score <= 9 && game.state.banker_score <= 9);
    let initial_player = GameState::calculate_hand_score(&game.player_hand[..2]);
    let initial_banker = GameState::calculate_hand_score(&game.banker_hand[..2]);
    if initial_player >= 8 || initial_banker >= 8 {
        assert_eq!(dealt, 4);
    } else {
        assert_eq!(game.player_hand.len() == 3, initial_player <= 5);
        let third = game.player_hand.get(2).map(|card| card.baccarat_value());
        assert_eq!(game.banker_hand.len() == 3, banker_should_draw(initial_banker, third));
    }
    let expected = if game.state.player_score > game.state.banker_score {
        WINNER_PLAYER
    } else if game.state.banker_score > game.state.player_score {
        WINNER_BANKER
    } else {
        WINNER_TIE
    };
    assert_eq!(game.state.winner, expected);
}

#[test]
fn winner_codes() {
    assert_eq!((WINNER_NONE, WINNER_PLAYER, WINNER_BANKER, WINNER_TIE), (0, 1, 2, 3));
}

#[test]
fn new_game_is_classic_on_a_full_deck() {
    let game = BaccaratGame::new();
    assert_eq!(game.mode, GameMode::Classic);
    assert!(matches!(game.card_source, CardSource::SingleDeck(_)));
    assert_eq!(game.card_source.cards_remaining(), 52);
    assert!(game.player_hand.is_empty());
    assert!(game.banker_hand.is_empty());
    assert_eq!(game.state, GameState::new());
    assert_eq!(game.bonus_bets, BonusBets::new());
    assert!(!game.card_source.needs_reshuffle());
}

#[test]
fn game_with_mode_keeps_the_mode() {
    for mode in [GameMode::Classic, GameMode::NoCommission, GameMode::Speed, GameMode::EzBaccarat] {
        let game = BaccaratGame::with_mode(mode);
        assert_eq!(game.mode, mode);
        assert_eq!(game.card_source.cards_remaining(), 52);
        assert_eq!(game.state.round_complete, 0);
        assert_eq!(game.state.winner, WINNER_NONE);
    }
}

#[test]
fn game_with_mode_shuffles_its_deck() {
    let mut game = BaccaratGame::with_mode(GameMode::Classic);
    let mut dealt = Vec::new();
    while let Some(card) = game.card_source.deal() {
        dealt.push(card);
    }
    let mut fresh = Deck::new();
    let mut ordered = Vec::new();
    while let Some(card) = fresh.deal() {
        ordered.push(card);
    }
    assert_eq!(dealt.len(), 52);
    assert_ne!(dealt, ordered);
}

#[test]
fn game_with_shoe_holds_all_decks() {
    let game = BaccaratGame::with_shoe(GameMode::Speed, 6);
    assert_eq!(game.mode, GameMode::Speed);
    assert!(matches!(game.card_source, CardSource::Shoe(_)));
    assert_eq!(game.card_source.cards_remaining(), 312);
    assert!(game.player_hand.is_empty());
    assert!(game.banker_hand.is_empty());
    assert_eq!(game.state, GameState::new());
}

#[test]
fn banker_table_is_exact_for_every_score_and_third_card() {
    for score in 0..=9u8 {
        let stood = banker_should_draw(score, None);
        assert_eq!(stood, score <= 3, "banker {} after the player stood", score);
        for value in 0..=9u8 {
            let expected = match score {
                0 | 1 | 2 => true,
                3 => value != 8,
                4 => (2..=7).contains(&value),
                5 => (4..=7).contains(&value),
                6 => value == 6 || value == 7,
                _ => false,
            };
            assert_eq!(
                banker_should_draw(score, Some(value)),
                expected,
                "banker {} against a third card of {}",
                score,
                value
            );
        }
    }
}

#[test]
fn banker_table_rows_as_listed() {
    // Scores 0 to 2: always.
    assert!(banker_should_draw(0, None));
    assert!(banker_should_draw(1, Some(8)));
    assert!(banker_should_draw(2, Some(0)));
    // Score 3: unless the player drew an 8; also when the player stood.
    assert!(banker_should_draw(3, None));
    assert!(banker_should_draw(3, Some(7)));
    assert!(banker_should_draw(3, Some(9)));
    assert!(!banker_should_draw(3, Some(8)));
    // Score 4: against 2 to 7 only.
    assert!(!banker_should_draw(4, None));
    assert!(!banker_should_draw(4, Some(1)));
    assert!(banker_should_draw(4, Some(2)));
    assert!(banker_should_draw(4, Some(7)));
    assert!(!banker_should_draw(4, Some(8)));
    // Score 5: against 4 to 7 only.
    assert!(!banker_should_draw(5, None));
    assert!(!banker_should_draw(5, Some(3)));
    assert!(banker_should_draw(5, Some(4)));
    assert!(banker_should_draw(5, Some(7)));
    assert!(!banker_should_draw(5, Some(8)));
    // Score 6: against 6 and 7 only.
    assert!(!banker_should_draw(6, None));
    assert!(!banker_should_draw(6, Some(5)));
    assert!(banker_should_draw(6, Some(6)));
    assert!(banker_should_draw(6, Some(7)));
    assert!(!banker_should_draw(6, Some(8)));
    // Score 7 and more: never.
    assert!(!banker_should_draw(7, None));
    assert!(!banker_should_draw(7, Some(6)));
    assert!(!banker_should_draw(8, Some(6)));
    assert!(!banker_should_draw(9, None));
}

#[test]
fn initial_deal_alternates_player_and_banker() {
    let mut game = game_dealing(GameMode::Classic, &[1, 2, 3, 4, 5, 6]);
    game.deal_initial_cards();
    assert_eq!(ranks_of(&game.player_hand), vec![1, 3]);
    assert_eq!(ranks_of(&game.banker_hand), vec![2, 4]);
    assert_eq!(game.state.player_score, 4);
    assert_eq!(game.state.banker_score, 6);
    assert_eq!(game.state.round_complete, 0);
    assert_eq!(game.state.winner, WINNER_NONE);
    assert_eq!(game.card_source.cards_remaining(), 2);
}

#[test]
fn natural_ends_the_round_with_four_cards() {
    let mut game = game_dealing(GameMode::Classic, &[9, 5, 13, 2, 4, 4]);
    game.play_round();
    assert_eq!(ranks_of(&game.player_hand), vec![9, 13]);
    assert_eq!(ranks_of(&game.banker_hand), vec![5, 2]);
    assert_eq!(game.state.player_score, 9);
    assert_eq!(game.state.banker_score, 7);
    assert_eq!(game.state.round_complete, 1);
    assert_eq!(game.state.winner, WINNER_PLAYER);
    assert_eq!(game.card_source.cards_remaining(), 2);
    check_round_invariants(&game, 6);
}

#[test]
fn banker_natural_ends_the_round_though_the_player_is_low() {
    let mut game = game_dealing(GameMode::Classic, &[1, 4, 1, 4, 9, 9]);
    game.play_round();
    assert_eq!(ranks_of(&game.player_hand), vec![1, 1]);
    assert_eq!(ranks_of(&game.banker_hand), vec![4, 4]);
    assert_eq!(game.state.player_score, 2);
    assert_eq!(game.state.banker_score, 8);
    assert_eq!(game.state.winner, WINNER_BANKER);
    assert_eq!(game.card_source.cards_remaining(), 2);
}

#[test]
fn natural_round_needs_only_four_cards() {
    let mut game = game_dealing(GameMode::Classic, &[9, 5, 13, 2]);
    game.play_round();
    assert_eq!(game.state.winner, WINNER_PLAYER);
    assert_eq!(game.card_source.cards_remaining(), 0);
}

#[test]
fn two_naturals_of_equal_score_tie() {
    let mut game = game_dealing(GameMode::Classic, &[4, 10, 4, 8]);
    game.play_round();
    assert_eq!(game.state.player_score, 8);
    assert_eq!(game.state.banker_score, 8);
    assert_eq!(game.state.winner, WINNER_TIE);
    assert_eq!(game.state.round_complete, 1);
}

#[test]
fn player_draws_an_eight_and_banker_on_three_stands() {
    let mut game = game_dealing(GameMode::Classic, &[2, 3, 3, 13, 8, 5]);
    game.play_round();
    assert_eq!(ranks_of(&game.player_hand), vec![2, 3, 8]);
    assert_eq!(ranks_of(&game.banker_hand), vec![3, 13]);
    assert_eq!(game.state.player_score, 3);
    assert_eq!(game.state.banker_score, 3);
    assert_eq!(game.state.winner, WINNER_TIE);
    assert_eq!(game.card_source.cards_remaining(), 1);
    check_round_invariants(&game, 6);
}

#[test]
fn both_sides_draw_a_third_card() {
    let mut game = game_dealing(GameMode::Classic, &[2, 3, 3, 13, 4, 5]);
    game.play_round();
    assert_eq!(ranks_of(&game.player_hand), vec![2, 3, 4]);
    assert_eq!(ranks_of(&game.banker_hand), vec![3, 13, 5]);
    assert_eq!(game.state.player_score, 9);
    assert_eq!(game.state.banker_score, 8);
    assert_eq!(game.state.winner, WINNER_PLAYER);
    assert_eq!(game.card_source.cards_remaining(), 0);
    check_round_invariants(&game, 6);
}

#[test]
fn player_stands_on_six_and_banker_on_four_stands_too() {
    let mut game = game_dealing(GameMode::Classic, &[3, 2, 3, 2, 9, 9]);
    game.play_round();
    assert_eq!(ranks_of(&game.player_hand), vec![3, 3]);
    assert_eq!(ranks_of(&game.banker_hand), vec![2, 2]);
    assert_eq!(game.state.player_score, 6);
    assert_eq!(game.state.banker_score, 4);
    assert_eq!(game.state.winner, WINNER_PLAYER);
    assert_eq!(game.card_source.cards_remaining(), 2);
    check_round_invariants(&game, 6);
}

#[test]
fn player_stands_on_seven_and_banker_on_three_draws() {
    let mut game = game_dealing(GameMode::Classic, &[4, 1, 3, 2, 5, 9]);
    game.play_round();
    assert_eq!(ranks_of(&game.player_hand), vec![4, 3]);
    assert_eq!(ranks_of(&game.banker_hand), vec![1, 2, 5]);
    assert_eq!(game.state.player_score, 7);
    assert_eq!(game.state.banker_score, 8);
    assert_eq!(game.state.winner, WINNER_BANKER);
    assert_eq!(game.card_source.cards_remaining(), 1);
    check_round_invariants(&game, 6);
}

#[test]
fn player_stands_and_banker_on_five_and_six_stands() {
    let mut game = game_dealing(GameMode::Classic, &[3, 2, 4, 3, 1, 1]);
    game.play_round();
    assert_eq!(ranks_of(&game.player_hand), vec![3, 4]);
    assert_eq!(ranks_of(&game.banker_hand), vec![2, 3]);
    assert_eq!(game.state.winner, WINNER_PLAYER);
    let mut game = game_dealing(GameMode::Classic, &[3, 2, 4, 4, 1, 1]);
    game.play_round();
    assert_eq!(ranks_of(&game.player_hand), vec![3, 4]);
    assert_eq!(ranks_of(&game.banker_hand), vec![2, 4]);
    assert_eq!(game.state.player_score, 7);
    assert_eq!(game.state.banker_score, 6);
    assert_eq!(game.state.winner, WINNER_PLAYER);
}

#[test]
fn banker_on_seven_never_draws() {
    let mut game = game_dealing(GameMode::Classic, &[1, 3, 1, 4, 6, 2]);
    game.play_round();
    assert_eq!(ranks_of(&game.player_hand), vec![1, 1, 6]);
    assert_eq!(ranks_of(&game.banker_hand), vec![3, 4]);
    assert_eq!(game.state.player_score, 8);
    assert_eq!(game.state.banker_score, 7);
    assert_eq!(game.state.winner, WINNER_PLAYER);
    assert_eq!(game.card_source.cards_remaining(), 1);
}

#[test]
fn banker_on_six_draws_against_a_six() {
    let mut game = game_dealing(GameMode::Classic, &[10, 2, 11, 4, 6, 3]);
    game.play_round();
    assert_eq!(ranks_of(&game.player_hand), vec![10, 11, 6]);
    assert_eq!(ranks_of(&game.banker_hand), vec![2, 4, 3]);
    assert_eq!(game.state.player_score, 6);
    assert_eq!(game.state.banker_score, 9);
    assert_eq!(game.state.winner, WINNER_BANKER);
}

#[test]
fn banker_draw_logic_follows_the_score_on_record() {
    let mut game = game_dealing(GameMode::Classic, &[1, 2, 3, 2, 7]);
    game.deal_initial_cards();
    assert_eq!(game.state.banker_score, 4);
    game.banker_draw_logic(None);
    assert_eq!(game.banker_hand.len(), 2);
    assert_eq!(game.card_source.cards_remaining(), 1);
    game.banker_draw_logic(Some(1));
    assert_eq!(game.banker_hand.len(), 2);
    game.banker_draw_logic(Some(2));
    assert_eq!(ranks_of(&game.banker_hand), vec![2, 2, 7]);
    assert_eq!(game.state.banker_score, 1);
    assert_eq!(game.state.player_score, 4);
    assert_eq!(game.card_source.cards_remaining(), 0);
    assert_eq!(game.state.round_complete, 0);
}

#[test]
fn determine_winner_compares_the_scores_on_record() {
    let mut game = game_dealing(GameMode::Classic, &[]);
    game.state.player_score = 3;
    game.state.banker_score = 5;
    game.determine_winner();
    assert_eq!(game.state.winner, WINNER_BANKER);
    assert_eq!(game.state.round_complete, 1);
    game.state.player_score = 6;
    game.determine_winner();
    assert_eq!(game.state.winner, WINNER_PLAYER);
    game.state.banker_score = 6;
    game.determine_winner();
    assert_eq!(game.state.winner, WINNER_TIE);
}

#[test]
fn update_scores_follows_the_hands() {
    let mut game = game_dealing(GameMode::Classic, &[]);
    game.player_hand = vec![Card::new(CLUBS, 7), Card::new(SPADES, 8)];
    game.banker_hand = vec![Card::new(DIAMONDS, 12)];
    game.update_scores();
    assert_eq!(game.state.player_score, 5);
    assert_eq!(game.state.banker_score, 0);
    assert_eq!(game.state.round_complete, 0);
}

#[test]
fn pairs_are_judged_by_the_first_two_cards() {
    let mut game = game_dealing(GameMode::Classic, &[]);
    assert!(!game.is_player_pair());
    assert!(!game.is_banker_pair());
    assert!(!game.is_either_pair());
    assert!(!game.is_perfect_pair());
    game.player_hand = vec![Card::new(HEARTS, 5), Card::new(CLUBS, 5), Card::new(CLUBS, 9)];
    game.banker_hand = vec![Card::new(HEARTS, 5), Card::new(HEARTS, 6), Card::new(HEARTS, 6)];
    assert!(game.is_player_pair());
    assert!(!game.is_banker_pair());
    assert!(game.is_either_pair());
    assert!(!game.is_perfect_pair());
    game.banker_hand = vec![Card::new(SPADES, 11), Card::new(SPADES, 11)];
    assert!(game.is_banker_pair());
    assert!(game.is_perfect_pair());
    game.player_hand = vec![Card::new(HEARTS, 5)];
    assert!(!game.is_player_pair());
    assert!(game.is_either_pair());
    game.banker_hand = vec![Card::new(SPADES, 11), Card::new(SPADES, 12)];
    assert!(!game.is_either_pair());
    assert!(!game.is_perfect_pair());
}

#[test]
fn victory_margin_is_the_distance_of_the_scores_of_a_win() {
    let mut game = game_dealing(GameMode::Classic, &[]);
    game.state.player_score = 9;
    game.state.banker_score = 2;
    assert_eq!(game.victory_margin(), 0);
    game.state.winner = WINNER_PLAYER;
    assert_eq!(game.victory_margin(), 7);
    game.state.player_score = 1;
    game.state.banker_score = 6;
    game.state.winner = WINNER_BANKER;
    assert_eq!(game.victory_margin(), 5);
    game.state.winner = WINNER_TIE;
    assert_eq!(game.victory_margin(), 0);
}

#[test]
fn dragon_seven_is_a_banker_win_with_three_cards_and_seven() {
    let mut game = game_dealing(GameMode::EzBaccarat, &[13, 2, 12, 13, 6, 5]);
    game.play_round();
    assert_eq!(ranks_of(&game.player_hand), vec![13, 12, 6]);
    assert_eq!(ranks_of(&game.banker_hand), vec![2, 13, 5]);
    assert_eq!(game.state.player_score, 6);
    assert_eq!(game.state.banker_score, 7);
    assert_eq!(game.state.winner, WINNER_BANKER);
    assert!(game.is_dragon_7());
    assert!(!game.is_panda_8());
    assert_eq!(game.victory_margin(), 1);
}

#[test]
fn banker_seven_with_two_cards_is_no_dragon() {
    let mut game = game_dealing(GameMode::EzBaccarat, &[3, 3, 3, 4, 1, 1]);
    game.play_round();
    assert_eq!(game.state.player_score, 6);
    assert_eq!(game.state.banker_score, 7);
    assert_eq!(game.banker_hand.len(), 2);
    assert_eq!(game.state.winner, WINNER_BANKER);
    assert!(!game.is_dragon_7());
}

#[test]
fn panda_eight_is_a_player_win_with_three_cards_and_eight() {
    let mut game = game_dealing(GameMode::EzBaccarat, &[2, 13, 3, 12, 3, 11]);
    game.play_round();
    assert_eq!(ranks_of(&game.player_hand), vec![2, 3, 3]);
    assert_eq!(ranks_of(&game.banker_hand), vec![13, 12, 11]);
    assert_eq!(game.state.player_score, 8);
    assert_eq!(game.state.banker_score, 0);
    assert_eq!(game.state.winner, WINNER_PLAYER);
    assert!(game.is_panda_8());
    assert!(!game.is_dragon_7());
    assert_eq!(game.victory_margin(), 8);
}

#[test]
fn set_bonus_bets_replaces_the_stakes() {
    let mut game = BaccaratGame::new();
    let mut bets = BonusBets::new();
    bets.lucky_6 = 7;
    bets.player_pair = 3;
    game.set_bonus_bets(bets);
    assert_eq!(game.bonus_bets, bets);
    game.set_bonus_bets(BonusBets::new());
    assert_eq!(game.bonus_bets, BonusBets::new());
    assert_eq!(game.mode, GameMode::Classic);
}

#[test]
fn random_rounds_on_a_single_deck_keep_the_invariants() {
    for _ in 0..300 {
        let mut game = BaccaratGame::with_mode(GameMode::Classic);
        game.play_round();
        check_round_invariants(&game, 52);
    }
}

#[test]
fn random_rounds_on_a_shoe_keep_the_invariants() {
    let mut source_game = BaccaratGame::with_shoe(GameMode::NoCommission, 8);
    let mut rounds = 0;
    while rounds < 400 {
        if source_game.card_source.needs_reshuffle() {
            source_game.card_source.reshuffle();
            assert_eq!(source_game.card_source.cards_remaining(), 416);
        }
        let before = source_game.card_source.cards_remaining();
        assert!(before >= 6);
        source_game.play_round();
        check_round_invariants(&source_game, before);
        rounds += 1;
    }
}

#[test]
fn a_second_round_begins_with_empty_hands() {
    let mut game = game_dealing(GameMode::Classic, &[9, 5, 13, 2, 1, 1, 1, 1, 5, 4]);
    game.play_round();
    assert_eq!(ranks_of(&game.player_hand), vec![9, 13]);
    assert_eq!(ranks_of(&game.banker_hand), vec![5, 2]);
    assert_eq!(game.state.winner, WINNER_PLAYER);
    game.play_round();
    // The second round holds its own cards only: the player 1, 1 and a 5 drawn on a score
    // of 2, the banker 1, 1 and a 4 drawn on a score of 2.
    assert_eq!(ranks_of(&game.player_hand), vec![1, 1, 5]);
    assert_eq!(ranks_of(&game.banker_hand), vec![1, 1, 4]);
    assert_eq!(game.state.player_score, 7);
    assert_eq!(game.state.banker_score, 6);
    assert_eq!(game.state.round_complete, 1);
    assert_eq!(game.state.winner, WINNER_PLAYER);
    assert_eq!(game.card_source.cards_remaining(), 0);
    check_round_invariants(&game, 6);
}

#[test]
fn a_round_after_a_round_of_six_cards_may_be_a_natural_of_four() {
    let mut game = game_dealing(GameMode::Classic, &[2, 3, 3, 13, 4, 5, 4, 13, 4, 12]);
    game.play_round();
    assert_eq!(game.player_hand.len() + game.banker_hand.len(), 6);
    game.play_round();
    assert_eq!(ranks_of(&game.player_hand), vec![4, 4]);
    assert_eq!(ranks_of(&game.banker_hand), vec![13, 12]);
    assert_eq!(game.state.player_score, 8);
    assert_eq!(game.state.banker_score, 0);
    assert_eq!(game.state.winner, WINNER_PLAYER);
    check_round_invariants(&game, 4);
}

#[test]
fn rounds_on_one_deck_never_hold_more_than_three_cards_a_hand() {
    let mut game = BaccaratGame::with_seed(GameMode::Classic, 17);
    let mut rounds = 0;
    while !game.card_source.needs_reshuffle() {
        let before = game.card_source.cards_remaining();
        game.play_round();
        check_round_invariants(&game, before);
        rounds += 1;
    }
    assert!(rounds >= 8);
    game.card_source.reshuffle();
    let before = game.card_source.cards_remaining();
    assert_eq!(before, 52);
    game.play_round();
    check_round_invariants(&game, before);
}

#[test]
fn begin_round_empties_hands_and_record() {
    let mut game = game_dealing(GameMode::Speed, &[9, 5, 13, 2, 7, 7]);
    let mut bets = BonusBets::new();
    bets.lucky_6 = 3;
    game.set_bonus_bets(bets);
    game.play_round();
    assert_eq!(game.state.round_complete, 1);
    game.begin_round();
    assert!(game.player_hand.is_empty());
    assert!(game.banker_hand.is_empty());
    assert_eq!(game.state, GameState::new());
    assert_eq!(game.card_source.cards_remaining(), 2);
    assert_eq!(game.mode, GameMode::Speed);
    assert_eq!(game.bonus_bets, bets);
    game.begin_round();
    assert!(game.player_hand.is_empty());
    assert_eq!(game.state, GameState::new());
}

#[test]
fn initial_deal_begins_a_new_round() {
    let mut game = game_dealing(GameMode::Classic, &[9, 5, 13, 2, 1, 2, 3, 4]);
    game.play_round();
    assert_eq!(game.state.winner, WINNER_PLAYER);
    game.deal_initial_cards();
    assert_eq!(ranks_of(&game.player_hand), vec![1, 3]);
    assert_eq!(ranks_of(&game.banker_hand), vec![2, 4]);
    assert_eq!(game.state.player_score, 4);
    assert_eq!(game.state.banker_score, 6);
    assert_eq!(game.state.round_complete, 0);
    assert_eq!(game.state.winner, WINNER_NONE);
    assert_eq!(game.card_source.cards_remaining(), 0);
}

#[test]
fn seeded_games_play_the_same_rounds() {
    for mode in [GameMode::Classic, GameMode::EzBaccarat] {
        for seed in [0u64, 3, 99, u64::MAX] {
            let mut first = BaccaratGame::with_seed(mode, seed);
            let mut second = BaccaratGame::with_seed(mode, seed);
            assert_eq!(first.mode, mode);
            assert_eq!(first.card_source.cards_remaining(), 52);
            first.play_round();
            second.play_round();
            check_round_invariants(&first, 52);
            assert_eq!(first.player_hand, second.player_hand);
            assert_eq!(first.banker_hand, second.banker_hand);
            assert_eq!(first.state, second.state);
        }
    }
}

#[test]
fn seeded_games_differ_from_seed_to_seed() {
    let mut rounds = Vec::new();
    for seed in 0..20u64 {
        let mut game = BaccaratGame::with_seed(GameMode::Classic, seed);
        game.play_round();
        rounds.push((ranks_of(&game.player_hand), ranks_of(&game.banker_hand)));
    }
    assert!(rounds.iter().any(|round| *round != rounds[0]));
}

#[test]
fn seeded_shoe_games_play_the_same_rounds_through_a_reshuffle() {
    let mut first = BaccaratGame::with_shoe_seeded(GameMode::Speed, 1, 11);
    let mut second = BaccaratGame::with_shoe_seeded(GameMode::Speed, 1, 11);
    assert!(matches!(first.card_source, CardSource::Shoe(_)));
    assert_eq!(first.card_source.cards_remaining(), 52);
    let mut reshuffles = 0;
    for _ in 0..40 {
        for game in [&mut first, &mut second] {
            if game.card_source.needs_reshuffle() {
                game.card_source.reshuffle();
                reshuffles += 1;
            }
            let before = game.card_source.cards_remaining();
            game.play_round();
            check_round_invariants(game, before);
        }
        assert_eq!(first.player_hand, second.player_hand);
        assert_eq!(first.banker_hand, second.banker_hand);
        assert_eq!(first.state, second.state);
    }
    assert!(reshuffles >= 4);
}
