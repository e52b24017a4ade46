use test_player::player::Player;
use test_player::state::TurnError;

#[test]
fn new_keeps_dimensions_and_start() {
    let player = Player::new((3, 2), 9);
    assert_eq!(player.dimensions(), (3, 2));
    assert_eq!(player.next_turn(), 9);
}

#[test]
fn new_accepts_a_grid_without_width() {
    let player = Player::new((0, 4), 1);
    assert_eq!(player.dimensions(), (0, 4));
    assert_eq!(player.next_turn(), 1);
}

#[test]
fn three_by_two_walks_the_first_row_then_wraps() {
    let mut player = Player::new((3, 2), 0);
    assert_eq!(player.your_turn(), Some((0, 0)));
    assert_eq!(player.your_turn(), Some((1, 0)));
    assert_eq!(player.your_turn(), Some((2, 0)));
    assert_eq!(player.your_turn(), Some((0, 1)));
    assert_eq!(player.next_turn(), 4);
}

#[test]
fn five_by_five_from_seven() {
    let mut player = Player::new((5, 5), 7);
    assert_eq!(player.your_turn(), Some((2, 1)));
    assert_eq!(player.next_turn(), 8);
    assert_eq!(player, Player::new((5, 5), 8));
}

#[test]
fn kth_turn_is_start_plus_k_split_by_width() {
    let width: u32 = 7;
    let start: u32 = 13;
    let mut player = Player::new((width, 3), start);
    let mut k: u32 = 0;
    while k < 50 {
        let cell = player.your_turn();
        assert_eq!(cell, Some(((start + k) % width, (start + k) / width)));
        k += 1;
    }
}

#[test]
fn exact_cell_on_a_wide_grid() {
    let mut player = Player::new((640, 480), 123_456);
    assert_eq!(player.your_turn(), Some((576, 192)));
    assert_eq!(player.your_turn(), Some((577, 192)));
}

#[test]
fn counter_moves_by_exactly_one() {
    let mut player = Player::new((4, 4), 100);
    let mut expected: u32 = 100;
    while expected < 120 {
        assert_eq!(player.next_turn(), expected);
        assert!(player.your_turn().is_some());
        expected += 1;
        assert_eq!(player.next_turn(), expected);
        assert_eq!(player.dimensions(), (4, 4));
    }
}

#[test]
fn column_stays_within_width() {
    let mut player = Player::new((6, 2), 0);
    let mut k: u32 = 0;
    while k < 100 {
        let (x, _y) = player.your_turn().unwrap();
        assert!(x < 6);
        k += 1;
    }
}

#[test]
fn row_is_not_held_to_the_height() {
    let mut player = Player::new((3, 2), 6);
    assert_eq!(player.your_turn(), Some((0, 2)));
}

#[test]
fn width_one_is_a_single_column() {
    let mut player = Player::new((1, 10), 41);
    assert_eq!(player.your_turn(), Some((0, 41)));
    assert_eq!(player.your_turn(), Some((0, 42)));
}

#[test]
fn moves_never_repeat() {
    let mut player = Player::new((5, 5), 3);
    let mut seen: Vec<(u32, u32)> = Vec::new();
    let mut k: u32 = 0;
    while k < 200 {
        let cell = player.your_turn().unwrap();
        assert!(!seen.contains(&cell));
        seen.push(cell);
        k += 1;
    }
    assert_eq!(seen.len(), 200);
}

#[test]
fn try_turn_agrees_with_turn() {
    let mut plain = Player::new((9, 9), 80);
    let mut checked = Player::new((9, 9), 80);
    let mut k: u32 = 0;
    while k < 30 {
        assert_eq!(checked.try_your_turn().ok(), plain.your_turn());
        assert_eq!(checked, plain);
        k += 1;
    }
}

#[test]
fn zero_width_is_division_by_zero() {
    let mut player = Player::new((0, 5), 0);
    assert_eq!(player.try_your_turn(), Err(TurnError::DivisionByZero));
    assert_eq!(player, Player::new((0, 5), 0));
    assert_eq!(player.try_your_turn(), Err(TurnError::DivisionByZero));
}

#[test]
fn zero_width_comes_before_a_full_counter() {
    let mut player = Player::new((0, 0), u32::MAX);
    assert_eq!(player.try_your_turn(), Err(TurnError::DivisionByZero));
    assert_eq!(player.next_turn(), u32::MAX);
}

#[test]
fn full_counter_is_counter_overflow() {
    let mut player = Player::new((4, 4), u32::MAX);
    assert_eq!(player.try_your_turn(), Err(TurnError::CounterOverflow));
    assert_eq!(player.next_turn(), u32::MAX);
    assert_eq!(player.dimensions(), (4, 4));
}

#[test]
fn last_turn_before_the_limit() {
    let mut player = Player::new((16, 16), u32::MAX - 1);
    assert_eq!(player.try_your_turn(), Ok((14, 268_435_455)));
    assert_eq!(player.next_turn(), u32::MAX);
    assert_eq!(player.try_your_turn(), Err(TurnError::CounterOverflow));
    assert_eq!(player.next_turn(), u32::MAX);
}

#[test]
fn errors_are_distinct() {
    assert_ne!(TurnError::DivisionByZero, TurnError::CounterOverflow);
}
