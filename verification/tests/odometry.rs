use rsbot::board::EncoderCounts;
use rsbot::odometry::{EncoderTracker, Pose2d, WheelEncoderSample};

#[test]
fn first_sample_primes_the_tracker() {
    let mut tracker = EncoderTracker::new();
    assert_eq!(tracker.advance(WheelEncoderSample::new(10, 20)), None);
    assert_eq!(tracker.advance(WheelEncoderSample::new(110, 70)), Some((100, 50)));
    assert_eq!(tracker.advance(WheelEncoderSample::new(60, 70)), Some((-50, 0)));
}

#[test]
fn reset_counts_from_the_given_sample() {
    let mut tracker = EncoderTracker::new();
    tracker.reset(WheelEncoderSample::new(0, 0));
    assert_eq!(tracker.advance(WheelEncoderSample::new(-50, 50)), Some((-50, 50)));
    tracker.reset(WheelEncoderSample::new(7, 7));
    assert_eq!(tracker.advance(WheelEncoderSample::new(7, 7)), Some((0, 0)));
}

#[test]
fn consecutive_deltas_add_up() {
    let a = WheelEncoderSample::new(0, 0);
    let b = WheelEncoderSample::new(30, -10);
    let c = WheelEncoderSample::new(100, 40);
    let (l1, r1) = b.deltas_since(a);
    let (l2, r2) = c.deltas_since(b);
    assert_eq!(c.deltas_since(a), (l1 + l2, r1 + r2));
}

#[test]
fn samples_come_from_encoder_counts() {
    let sample = WheelEncoderSample::from_counts(EncoderCounts { left: 5, right: -6 });
    assert_eq!(sample, WheelEncoderSample::new(5, -6));
    assert_eq!(sample.left_ticks, 5);
    assert_eq!(sample.right_ticks, -6);
}

#[test]
fn pose_holds_its_coordinates() {
    let pose = Pose2d::new(1.0f32, -2.0, 0.5);
    assert_eq!((pose.x_m, pose.y_m, pose.yaw_rad), (1.0, -2.0, 0.5));
    assert_eq!(Pose2d::<f32>::default(), Pose2d::new(0.0, 0.0, 0.0));
}
