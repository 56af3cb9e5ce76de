use trail_shooter::speed::{ProjectileData, INITIAL_SPEED, SPEED_STEP};

#[test]
fn starts_at_the_initial_speed() {
    let data = ProjectileData::new("ribbon");
    assert_eq!(INITIAL_SPEED, 1000);
    assert_eq!(SPEED_STEP, 200);
    assert_eq!(data.speed, 1000);
    assert_eq!(data.effect, "ribbon");
}

#[test]
fn up_key_adds_one_step() {
    let mut data = ProjectileData::new(());
    data.change_speed(true, false);
    assert_eq!(data.speed, 1200);
}

#[test]
fn down_key_takes_one_step() {
    let mut data = ProjectileData::new(());
    data.change_speed(false, true);
    assert_eq!(data.speed, 800);
}

#[test]
fn no_key_keeps_the_speed() {
    let mut data = ProjectileData::new(());
    data.change_speed(false, false);
    assert_eq!(data.speed, 1000);
}

#[test]
fn both_keys_in_one_frame_cancel() {
    let mut data = ProjectileData::new(());
    data.change_speed(true, true);
    assert_eq!(data.speed, 1000);
    data.change_speed(true, false);
    data.change_speed(true, true);
    assert_eq!(data.speed, 1200);
}

#[test]
fn speed_counts_presses_in_any_order() {
    let mut first = ProjectileData::new(());
    for (up, down) in [(true, false), (true, false), (false, true), (true, false)] {
        first.change_speed(up, down);
    }
    let mut second = ProjectileData::new(());
    for (up, down) in [(true, true), (true, false), (false, false), (true, false)] {
        second.change_speed(up, down);
    }
    assert_eq!(first.speed, 1000 + 200 * (3 - 1));
    assert_eq!(second.speed, 1400);
}

#[test]
fn speed_may_go_below_zero() {
    let mut data = ProjectileData::new(());
    for _ in 0..6 {
        data.change_speed(false, true);
    }
    assert_eq!(data.speed, -200);
}

#[test]
fn change_keeps_the_effect_handle() {
    let mut data = ProjectileData::new(41u32);
    data.change_speed(true, false);
    data.change_speed(false, true);
    assert_eq!(data.effect, 41);
    assert_eq!(data.speed, 1000);
}

#[test]
fn can_change_speed_inside_the_range() {
    let data = ProjectileData::new(());
    assert!(data.can_change_speed(true, false));
    assert!(data.can_change_speed(false, true));
    assert!(data.can_change_speed(false, false));
}

#[test]
fn cannot_step_past_the_largest_speed() {
    let mut data = ProjectileData::new(());
    data.speed = i64::MAX - 199;
    assert!(!data.can_change_speed(true, false));
    assert!(data.can_change_speed(true, true));
    assert!(data.can_change_speed(false, true));
    assert!(data.can_change_speed(false, false));
    data.speed = i64::MAX - 200;
    assert!(data.can_change_speed(true, false));
    data.change_speed(true, false);
    assert_eq!(data.speed, i64::MAX);
}

#[test]
fn both_keys_fit_at_either_end() {
    let mut data = ProjectileData::new(());
    data.speed = i64::MAX;
    assert!(data.can_change_speed(true, true));
    data.change_speed(true, true);
    assert_eq!(data.speed, i64::MAX);
    data.speed = i64::MIN;
    assert!(data.can_change_speed(true, true));
    data.change_speed(true, true);
    assert_eq!(data.speed, i64::MIN);
}

#[test]
fn cannot_step_past_the_smallest_speed() {
    let mut data = ProjectileData::new(());
    data.speed = i64::MIN + 199;
    assert!(!data.can_change_speed(false, true));
    assert!(data.can_change_speed(true, true));
    assert!(data.can_change_speed(false, false));
    data.speed = i64::MIN + 200;
    assert!(data.can_change_speed(false, true));
    data.change_speed(false, true);
    assert_eq!(data.speed, i64::MIN);
}
