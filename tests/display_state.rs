use interactive_exeunit::messages::{Info, Messages, Progress};
use interactive_exeunit::progress::{bar_position, ProgressState};

#[test]
fn position_is_scaled_fraction() {
    assert_eq!(bar_position(500_000, 100), 50);
    assert_eq!(bar_position(1_000_000, 100), 100);
    assert_eq!(bar_position(62_500, 100), 6);
    assert_eq!(bar_position(0, 100), 0);
}

#[test]
fn position_rounds_to_nearest() {
    assert_eq!(bar_position(4_999, 100), 0);
    assert_eq!(bar_position(5_000, 100), 1);
    assert_eq!(bar_position(14_999, 100), 1);
    assert_eq!(bar_position(15_000, 100), 2);
    assert_eq!(bar_position(333_333, 3), 1);
}

#[test]
fn position_clamps_overshoot() {
    assert_eq!(bar_position(1_000_001, 100), 100);
    assert_eq!(bar_position(u32::MAX, 100), 100);
    assert_eq!(bar_position(u32::MAX, u64::MAX), u64::MAX);
}

#[test]
fn position_for_other_scales() {
    assert_eq!(bar_position(500_000, 0), 0);
    assert_eq!(bar_position(250_000, 40), 10);
    assert_eq!(bar_position(500_000, 1), 1);
}

#[test]
fn state_follows_messages_in_any_order() {
    let mut s = ProgressState::new(100);
    assert_eq!(s.position, 0);
    assert_eq!(s.message, "");
    s.apply(Messages::Progress(Progress { value: 750_000 }));
    assert_eq!(s.position, 75);
    s.apply(Messages::Info(Info { message: "halfway there".to_string() }));
    assert_eq!(s.message, "halfway there");
    assert_eq!(s.position, 75);
    s.apply(Messages::Progress(Progress { value: 250_000 }));
    assert_eq!(s.position, 25);
    assert_eq!(s.message, "halfway there");
    s.close();
    assert_eq!(s.position, 100);
}
