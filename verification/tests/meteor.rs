use bevy_turborand::RngComponent;
use meteor_dodger::meteor::meteor_kinds;
use meteor_dodger::meteor::pick_column;
use meteor_dodger::meteor::pick_kind;
use meteor_dodger::meteor::MeteorKind;

#[test]
fn kinds_are_big_then_small() {
    assert_eq!(meteor_kinds(), vec![MeteorKind::Big, MeteorKind::Small]);
}

#[test]
fn sprite_sizes() {
    assert_eq!(MeteorKind::Big.width(), 192);
    assert_eq!(MeteorKind::Big.height(), 156);
    assert_eq!(MeteorKind::Small.width(), 108);
    assert_eq!(MeteorKind::Small.height(), 92);
    assert_eq!(MeteorKind::Big.scale_percent(), 50);
    assert_eq!(MeteorKind::Small.scale_percent(), 50);
}

#[test]
fn picked_kind_is_listed_and_both_kinds_come_up() {
    let mut rng = RngComponent::with_seed(7);
    let kinds = meteor_kinds();
    let mut big = 0;
    let mut small = 0;
    for _ in 0..200 {
        match pick_kind(&mut rng, &kinds) {
            MeteorKind::Big => big += 1,
            MeteorKind::Small => small += 1,
        }
    }
    assert_eq!(big + small, 200);
    assert!(big > 0);
    assert!(small > 0);
}

#[test]
fn picked_kind_from_a_single_entry() {
    let mut rng = RngComponent::with_seed(7);
    let kinds = vec![MeteorKind::Small];
    for _ in 0..20 {
        assert_eq!(pick_kind(&mut rng, &kinds), MeteorKind::Small);
    }
}

#[test]
fn picked_column_stays_inside_the_window() {
    let mut rng = RngComponent::with_seed(11);
    let mut lowest = i32::MAX;
    let mut highest = i32::MIN;
    for _ in 0..2000 {
        let column = pick_column(&mut rng, -400, 400);
        assert!(column >= -400);
        assert!(column < 400);
        lowest = lowest.min(column);
        highest = highest.max(column);
    }
    assert!(lowest < highest);
    assert!(lowest < -300);
    assert!(highest > 300);
}

#[test]
fn picked_column_in_a_one_pixel_window() {
    let mut rng = RngComponent::with_seed(3);
    for _ in 0..20 {
        assert_eq!(pick_column(&mut rng, 5, 6), 5);
    }
}

#[test]
fn picked_column_at_the_ends_of_the_integer_range() {
    let mut rng = RngComponent::with_seed(5);
    for _ in 0..200 {
        let column = pick_column(&mut rng, i32::MIN, i32::MAX);
        assert!(column < i32::MAX);
    }
}

#[test]
fn same_seed_gives_same_draws() {
    let mut first = RngComponent::with_seed(99);
    let mut second = RngComponent::with_seed(99);
    let kinds = meteor_kinds();
    for _ in 0..50 {
        assert_eq!(pick_kind(&mut first, &kinds), pick_kind(&mut second, &kinds));
        assert_eq!(pick_column(&mut first, -640, 640), pick_column(&mut second, -640, 640));
    }
}

#[test]
fn sprite_file_names() {
    assert_eq!(MeteorKind::Big.texture(), "spr_meteor_big.png");
    assert_eq!(MeteorKind::Small.texture(), "spr_meteor_small.png");
}
