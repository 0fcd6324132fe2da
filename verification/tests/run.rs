use meteor_dodger::difficulty::Difficulty;
use meteor_dodger::hearts::Heart;
use meteor_dodger::run::start_run;
use meteor_dodger::run::PLAYER_FRAME_HEIGHT;
use meteor_dodger::run::PLAYER_FRAME_WIDTH;
use meteor_dodger::run::PLAYER_SHEET_FRAMES;
use meteor_dodger::score::Scoreboard;

#[test]
fn player_sheet_constants() {
    assert_eq!(PLAYER_FRAME_WIDTH, 150);
    assert_eq!(PLAYER_FRAME_HEIGHT, 250);
    assert_eq!(PLAYER_SHEET_FRAMES, 5);
}

#[test]
fn start_of_the_first_run() {
    let mut difficulty = Difficulty::new();
    let mut board = Scoreboard::new();
    let start = start_run(&mut difficulty, &mut board);
    assert_eq!(difficulty.level(), 50);
    assert_eq!(board.score(), 0);
    assert_eq!(start.health.points(), 5);
    assert_eq!(start.cycle.first_frame(), 0);
    assert_eq!(start.cycle.last_frame(), 4);
    assert_eq!(start.frame, 1);
    assert_eq!(start.hearts.len(), 5);
    assert_eq!(start.hearts[0], Heart { slot: 0, left: 0 });
    assert_eq!(start.hearts[4], Heart { slot: 4, left: 100 });
}

#[test]
fn start_of_a_later_run_forgets_the_last_one() {
    let mut difficulty = Difficulty::new();
    let mut board = Scoreboard::new();
    let mut first = start_run(&mut difficulty, &mut board);
    for _ in 0..120 {
        difficulty.ramp(true);
        board.tick(true);
    }
    first.health.apply_damage(5);
    assert_eq!(difficulty.level(), 170);
    assert_eq!(board.score(), 120);
    let second = start_run(&mut difficulty, &mut board);
    assert_eq!(difficulty.level(), 50);
    assert_eq!(board.score(), 0);
    assert_eq!(second.health.points(), 5);
    assert_eq!(second.frame, 1);
    assert_eq!(second.hearts.len(), 5);
}
