use status_line::features::battery::data::Data;
use status_line::features::battery::dbus::DeviceMessage;
use status_line::features::battery::notifier::{BatteryNotifier, Notification, Urgency};

fn warning(level: &str, body: &str, urgency: Urgency) -> Option<Notification> {
    Some(Notification {
        summary: format!("Battery under {}%", level),
        body: body.to_owned(),
        urgency,
    })
}

#[test]
fn falling_capacity_warns_once_at_each_level() {
    let mut notifier = BatteryNotifier::new();
    assert_eq!(notifier.update(20, 3900), warning("20", "01:05 remaining", Urgency::Normal));
    assert_eq!(notifier.update(15, 3000), warning("15", "00:50 remaining", Urgency::Normal));
    assert_eq!(notifier.update(10, 1800), warning("10", "00:30 remaining", Urgency::Critical));
    assert_eq!(notifier.update(10, 1700), None);
}

#[test]
fn reset_clears_what_was_seen() {
    let mut notifier = BatteryNotifier::new();
    assert!(notifier.update(18, 600).is_some());
    assert_eq!(notifier.update(18, 600), None);
    notifier.reset();
    assert_eq!(notifier.update(18, 600), warning("20", "00:10 remaining", Urgency::Normal));
}

#[test]
fn no_warning_above_the_highest_level() {
    let mut notifier = BatteryNotifier::new();
    assert_eq!(notifier.update(100, 36000), None);
    assert_eq!(notifier.update(21, 36000), None);
    assert_eq!(notifier.update(20, 36000), warning("20", "10:00 remaining", Urgency::Normal));
}

#[test]
fn same_level_does_not_warn_again() {
    let mut notifier = BatteryNotifier::new();
    assert!(notifier.update(19, 0).is_some());
    assert_eq!(notifier.update(17, 0), None);
    assert_eq!(notifier.update(16, 0), None);
    assert_eq!(notifier.update(15, 0), warning("15", "00:00 remaining", Urgency::Normal));
}

#[test]
fn rising_capacity_does_not_warn() {
    let mut notifier = BatteryNotifier::new();
    assert!(notifier.update(4, 0).is_some());
    assert_eq!(notifier.update(9, 0), None);
    assert_eq!(notifier.update(14, 0), None);
    assert_eq!(notifier.update(50, 0), None);
    assert_eq!(notifier.update(14, 0), warning("15", "00:00 remaining", Urgency::Normal));
}

#[test]
fn a_level_is_crossed_at_equality() {
    let mut notifier = BatteryNotifier::new();
    assert_eq!(notifier.update(5, 60), warning("5", "00:01 remaining", Urgency::Critical));
    notifier.reset();
    assert_eq!(notifier.update(6, 60), warning("10", "00:01 remaining", Urgency::Critical));
    notifier.reset();
    assert_eq!(notifier.update(11, 60), warning("15", "00:01 remaining", Urgency::Normal));
}

#[test]
fn low_levels_are_critical() {
    let mut notifier = BatteryNotifier::new();
    assert_eq!(notifier.update(2, 59), warning("2", "00:00 remaining", Urgency::Critical));
    notifier.reset();
    assert_eq!(notifier.update(0, 119), warning("2", "00:01 remaining", Urgency::Critical));
    notifier.reset();
    assert_eq!(notifier.update(3, 0), warning("5", "00:00 remaining", Urgency::Critical));
}

#[test]
fn long_estimations_keep_all_their_digits() {
    let mut notifier = BatteryNotifier::new();
    assert_eq!(
        notifier.update(1, 360000 + 59 * 60 + 59),
        warning("2", "100:59 remaining", Urgency::Critical)
    );
    notifier.reset();
    assert_eq!(
        notifier.update(1, u64::MAX),
        warning("2", "5124095576030431:00 remaining", Urgency::Critical)
    );
}

#[test]
fn data_follows_the_devices() {
    let mut data = Data::new();
    assert!(!data.has_battery());
    data.handle(&DeviceMessage::Added("BAT0".to_owned()));
    data.handle(&DeviceMessage::Added("BAT1".to_owned()));
    assert!(data.has_battery());
    assert_eq!(*data.names(), vec!["BAT0".to_owned(), "BAT1".to_owned()]);
    data.handle(&DeviceMessage::Removed("BAT2".to_owned()));
    assert_eq!(data.names().len(), 2);
    data.handle(&DeviceMessage::Removed("BAT0".to_owned()));
    assert_eq!(*data.names(), vec!["BAT1".to_owned()]);
    data.handle(&DeviceMessage::Removed("BAT1".to_owned()));
    assert!(!data.has_battery());
}

#[test]
fn data_removes_one_of_two_equal_names() {
    let mut data = Data::new();
    data.handle(&DeviceMessage::Added("BAT0".to_owned()));
    data.handle(&DeviceMessage::Added("BAT1".to_owned()));
    data.handle(&DeviceMessage::Added("BAT0".to_owned()));
    data.handle(&DeviceMessage::Removed("BAT0".to_owned()));
    assert_eq!(*data.names(), vec!["BAT1".to_owned(), "BAT0".to_owned()]);
}

#[test]
fn data_forgets_the_capacity_when_the_last_device_goes() {
    let mut data = Data::new();
    data.handle(&DeviceMessage::Added("BAT0".to_owned()));
    assert_eq!(data.observe(18, 600), warning("20", "00:10 remaining", Urgency::Normal));
    assert_eq!(data.observe(18, 600), None);
    data.handle(&DeviceMessage::Removed("BAT0".to_owned()));
    data.handle(&DeviceMessage::Added("BAT0".to_owned()));
    assert_eq!(data.observe(18, 600), warning("20", "00:10 remaining", Urgency::Normal));
}

#[test]
fn data_keeps_the_capacity_while_a_device_is_left() {
    let mut data = Data::new();
    data.handle(&DeviceMessage::Added("BAT0".to_owned()));
    data.handle(&DeviceMessage::Added("BAT1".to_owned()));
    assert!(data.observe(18, 600).is_some());
    data.handle(&DeviceMessage::Removed("BAT0".to_owned()));
    assert_eq!(data.observe(18, 600), None);
    assert_eq!(data.observe(15, 600), warning("15", "00:10 remaining", Urgency::Normal));
}

#[test]
fn data_without_a_battery_does_not_warn() {
    let mut data = Data::new();
    assert_eq!(data.observe(1, 60), None);
    data.handle(&DeviceMessage::Added("BAT0".to_owned()));
    assert_eq!(data.observe(1, 60), warning("2", "00:01 remaining", Urgency::Critical));
}
