use meteor_dodger::score::Scoreboard;
use meteor_dodger::text::decimal_text;

#[test]
fn new_scoreboard_starts_at_zero() {
    let board = Scoreboard::new();
    assert_eq!(board.score(), 0);
    assert_eq!(board.text(), "0");
    assert_eq!(board.final_text(), "YOUR SCORE: 0");
}

#[test]
fn score_rises_only_when_a_period_completed() {
    let mut board = Scoreboard::new();
    board.tick(false);
    assert_eq!(board.score(), 0);
    board.tick(true);
    assert_eq!(board.score(), 1);
    board.tick(false);
    board.tick(false);
    assert_eq!(board.score(), 1);
    board.tick(true);
    board.tick(true);
    assert_eq!(board.score(), 3);
}

#[test]
fn reset_puts_the_score_back_to_zero() {
    let mut board = Scoreboard::new();
    for _ in 0..42 {
        board.tick(true);
    }
    assert_eq!(board.score(), 42);
    board.reset();
    assert_eq!(board.score(), 0);
}

#[test]
fn score_texts_after_many_periods() {
    let mut board = Scoreboard::new();
    for _ in 0..1207 {
        board.tick(true);
    }
    assert_eq!(board.text(), "1207");
    assert_eq!(board.final_text(), "YOUR SCORE: 1207");
}

#[test]
fn decimal_text_of_single_digits() {
    let digits = ["0", "1", "2", "3", "4", "5", "6", "7", "8", "9"];
    for (number, digit) in digits.iter().enumerate() {
        assert_eq!(decimal_text(number), *digit);
    }
}

#[test]
fn decimal_text_around_powers_of_ten() {
    assert_eq!(decimal_text(10), "10");
    assert_eq!(decimal_text(99), "99");
    assert_eq!(decimal_text(100), "100");
    assert_eq!(decimal_text(101), "101");
    assert_eq!(decimal_text(9_999), "9999");
    assert_eq!(decimal_text(10_000), "10000");
    assert_eq!(decimal_text(1_000_000), "1000000");
}

#[test]
fn decimal_text_keeps_inner_and_trailing_zeros() {
    assert_eq!(decimal_text(1_020_300), "1020300");
    assert_eq!(decimal_text(50), "50");
}

#[test]
fn decimal_text_of_the_largest_number() {
    assert_eq!(decimal_text(usize::MAX), usize::MAX.to_string());
}

#[test]
fn decimal_text_agrees_with_the_standard_rendering() {
    let mut number: usize = 1;
    for _ in 0..60 {
        assert_eq!(decimal_text(number), number.to_string());
        assert_eq!(decimal_text(number - 1), (number - 1).to_string());
        number = number.wrapping_mul(7).wrapping_add(3) % 1_000_000_007;
    }
}

#[test]
fn scoreboard_with_a_given_score() {
    let mut board = Scoreboard::with_score(usize::MAX - 1);
    board.tick(true);
    assert_eq!(board.score(), usize::MAX);
    board.tick(false);
    assert_eq!(board.score(), usize::MAX);
    assert_eq!(board.text(), usize::MAX.to_string());
}

#[test]
fn decimal_text_grows_by_a_digit_at_each_power_of_ten() {
    assert_eq!(decimal_text(0).len(), 1);
    assert_eq!(decimal_text(9).len(), 1);
    assert_eq!(decimal_text(10).len(), 2);
    assert_eq!(decimal_text(99).len(), 2);
    assert_eq!(decimal_text(100).len(), 3);
    assert_eq!(decimal_text(12_345).len(), decimal_text(1_234).len() + 1);
}

#[test]
fn different_numbers_have_different_texts() {
    let texts: Vec<String> = (0..300).map(decimal_text).collect();
    for first in 0..texts.len() {
        for second in (first + 1)..texts.len() {
            assert_ne!(texts[first], texts[second]);
        }
    }
}
