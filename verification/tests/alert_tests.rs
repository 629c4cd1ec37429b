use fofscreen::alert::{Alert, AlertType};
use std::time::SystemTime;

#[test]
fn new_alert_keeps_frame_number_and_name() {
    let alert = Alert::new(7, String::from("alice.jpg"));
    assert_eq!(alert.frameno(), 7);
    assert_eq!(alert.reference_name(), "alice.jpg");
    assert_eq!(alert.alert_type(), AlertType::Stdout);
}

#[test]
fn new_alert_is_stamped_with_the_time_of_creation() {
    let before = SystemTime::now();
    let alert = Alert::new(0, String::new());
    let after = SystemTime::now();
    assert!(before <= alert.timestamp());
    assert!(alert.timestamp() <= after);
}

#[test]
fn alert_accepts_the_largest_frame_number() {
    let alert = Alert::new(usize::MAX, String::from("bob.png"));
    assert_eq!(alert.frameno(), usize::MAX);
    assert_eq!(alert.reference_name(), "bob.png");
}

#[test]
fn stamped_alert_keeps_the_given_time() {
    let then = SystemTime::UNIX_EPOCH + std::time::Duration::from_secs(1_000);
    let alert = Alert::stamped(then, 3, String::from("carol.jpg"));
    assert_eq!(alert.timestamp(), then);
    assert_eq!(alert.frameno(), 3);
    assert_eq!(alert.reference_name(), "carol.jpg");
    assert_eq!(alert.alert_type(), AlertType::Stdout);
}
