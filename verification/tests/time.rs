use rsbot::time::{ControlTime, Millis};

#[test]
fn millis_round_trip_and_saturate() {
    let t = Millis::from_millis(1_250);
    assert_eq!(t.as_millis(), 1_250);
    assert_eq!(t.saturating_sub(Millis::from_millis(250)), Millis::from_millis(1_000));
    assert_eq!(Millis::from_millis(10).saturating_sub(Millis::from_millis(20)), Millis::from_millis(0));
    assert_eq!(Millis::from_millis(u32::MAX).saturating_sub(Millis::from_millis(0)).as_millis(), u32::MAX);
    assert!(Millis::from_millis(1) < Millis::from_millis(2));
    assert_eq!(Millis::default(), Millis::from_millis(0));
}

#[test]
fn control_time_holds_tick_and_elapsed() {
    let t = ControlTime::new(7, 20);
    assert_eq!(t.tick, 7);
    assert_eq!(t.elapsed_ms, 20);
}
