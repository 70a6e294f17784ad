use status_line::communication::Message;
use status_line::error::Error;
use status_line::features::battery::dbus::{
    BusAction, DbusWatcher, DeviceMessage, DeviceSet, Match, Signal,
};

const BAT0: &str = "/org/freedesktop/UPower/devices/battery_BAT0";
const BAT1: &str = "/org/freedesktop/UPower/devices/battery_BAT1";
const LINE_POWER: &str = "/org/freedesktop/UPower/devices/line_power_AC";

fn property_match(path: &str) -> Match {
    Match {
        interface: "org.freedesktop.DBus.Properties".to_owned(),
        member: Some("PropertiesChanged".to_owned()),
        path: path.to_owned(),
    }
}

fn added(path: &str, name: &str) -> Vec<BusAction> {
    vec![
        BusAction::Subscribe(property_match(path)),
        BusAction::Forward(DeviceMessage::Added(name.to_owned())),
    ]
}

fn removed(path: &str, name: &str) -> Vec<BusAction> {
    vec![
        BusAction::Unsubscribe(property_match(path)),
        BusAction::Forward(DeviceMessage::Removed(name.to_owned())),
    ]
}

fn upower_signal(member: &str, path: Option<&str>) -> Signal {
    Signal {
        interface: "org.freedesktop.UPower".to_owned(),
        member: member.to_owned(),
        path: path.map(|p| p.to_owned()),
    }
}

#[test]
fn device_name_strips_the_battery_prefix() {
    let watcher = DbusWatcher::new(0);
    assert_eq!(watcher.get_device_name(BAT0), "BAT0");
    assert_eq!(watcher.get_device_name(LINE_POWER), LINE_POWER);
    assert_eq!(watcher.get_device_name(""), "");
    assert_eq!(watcher.get_device_name("/org/freedesktop/UPower/devices/battery_"), "");
}

#[test]
fn device_name_strips_a_repeated_prefix() {
    let watcher = DbusWatcher::new(0);
    let twice = format!("/org/freedesktop/UPower/devices/battery_{}", BAT0);
    assert_eq!(watcher.get_device_name(&twice), "BAT0");
}

#[test]
fn start_subscribes_to_the_power_interface() {
    let watcher = DbusWatcher::new(4);
    assert_eq!(
        watcher.start(),
        vec![BusAction::Subscribe(Match {
            interface: "org.freedesktop.UPower".to_owned(),
            member: None,
            path: "/org/freedesktop/UPower".to_owned(),
        })]
    );
}

#[test]
fn current_devices_are_asked_of_the_power_interface() {
    let call = DbusWatcher::new(0).get_current_devices();
    assert_eq!(call.destination, "org.freedesktop.UPower");
    assert_eq!(call.path, "/org/freedesktop/UPower");
    assert_eq!(call.interface, "org.freedesktop.UPower");
    assert_eq!(call.member, "EnumerateDevices");
}

#[test]
fn adding_a_battery_tracks_it() {
    let watcher = DbusWatcher::new(0);
    let mut devices = DeviceSet::new();
    assert_eq!(devices.len(), 0);
    assert_eq!(watcher.add_device(&mut devices, BAT0), added(BAT0, "BAT0"));
    assert_eq!(devices.len(), 1);
    assert!(devices.contains(BAT0));
    assert_eq!(devices.position(BAT0), Some(0));
    assert_eq!(devices.paths(), vec![BAT0.to_owned()]);
}

#[test]
fn adding_the_same_path_twice_adds_it_once() {
    let watcher = DbusWatcher::new(0);
    let mut devices = DeviceSet::new();
    let first = watcher.add_device(&mut devices, BAT0);
    let size = devices.len();
    let second = watcher.add_device(&mut devices, BAT0);
    assert_eq!(devices.len(), size);
    assert_eq!(devices.len(), 1);
    let events = first
        .iter()
        .chain(second.iter())
        .filter(|a| matches!(a, BusAction::Forward(DeviceMessage::Added(_))))
        .count();
    assert_eq!(events, 1);
    assert!(second.is_empty());
}

#[test]
fn removing_an_untracked_path_does_nothing() {
    let watcher = DbusWatcher::new(0);
    let mut devices = DeviceSet::new();
    watcher.add_device(&mut devices, BAT0);
    assert!(watcher.remove_device(&mut devices, BAT1).is_empty());
    assert_eq!(devices.paths(), vec![BAT0.to_owned()]);
    let mut empty = DeviceSet::new();
    assert!(watcher.remove_device(&mut empty, BAT0).is_empty());
    assert_eq!(empty.len(), 0);
}

#[test]
fn removing_a_tracked_path_forgets_it() {
    let watcher = DbusWatcher::new(0);
    let mut devices = DeviceSet::new();
    watcher.add_device(&mut devices, BAT0);
    watcher.add_device(&mut devices, BAT1);
    assert_eq!(watcher.remove_device(&mut devices, BAT0), removed(BAT0, "BAT0"));
    assert_eq!(devices.paths(), vec![BAT1.to_owned()]);
    assert!(!devices.contains(BAT0));
    assert_eq!(devices.position(BAT0), None);
    assert_eq!(devices.position(BAT1), Some(0));
}

#[test]
fn paths_outside_the_battery_namespace_are_never_added() {
    let watcher = DbusWatcher::new(0);
    let mut devices = DeviceSet::new();
    for path in [
        LINE_POWER,
        "/org/freedesktop/UPower/devices",
        "/org/freedesktop/UPower/devices/DisplayDevice",
        "/org/freedesktop/UPower",
        "/somewhere/else",
        "battery_BAT0",
        "",
    ] {
        assert!(watcher.add_device(&mut devices, path).is_empty());
        assert_eq!(devices.len(), 0);
        assert!(!devices.contains(path));
    }
}

#[test]
fn a_battery_prefix_before_a_device_path_is_no_battery() {
    let watcher = DbusWatcher::new(0);
    let mut devices = DeviceSet::new();
    let path = format!("/org/freedesktop/UPower/devices/battery_{}", LINE_POWER);
    assert!(watcher.add_device(&mut devices, &path).is_empty());
    assert_eq!(devices.len(), 0);
}

#[test]
fn enumerate_adds_the_batteries_and_posts_once() {
    let watcher = DbusWatcher::new(3);
    let mut devices = DeviceSet::new();
    let listed = vec![
        LINE_POWER.to_owned(),
        BAT0.to_owned(),
        BAT1.to_owned(),
        BAT0.to_owned(),
    ];
    let mut expected = added(BAT0, "BAT0");
    expected.extend(added(BAT1, "BAT1"));
    expected.push(BusAction::Post(Message::FeatureUpdate(3)));
    assert_eq!(watcher.enumerate(&mut devices, &listed), expected);
    assert_eq!(devices.paths(), vec![BAT0.to_owned(), BAT1.to_owned()]);
}

#[test]
fn enumerate_of_nothing_still_posts() {
    let watcher = DbusWatcher::new(1);
    let mut devices = DeviceSet::new();
    assert_eq!(
        watcher.enumerate(&mut devices, &Vec::new()),
        vec![BusAction::Post(Message::FeatureUpdate(1))]
    );
    assert_eq!(devices.len(), 0);
}

#[test]
fn device_added_signal_adds_and_posts() {
    let watcher = DbusWatcher::new(2);
    let mut devices = DeviceSet::new();
    let mut expected = added(BAT0, "BAT0");
    expected.push(BusAction::Post(Message::FeatureUpdate(2)));
    assert_eq!(
        watcher.handle_signal(&mut devices, &upower_signal("DeviceAdded", Some(BAT0))),
        Ok(expected)
    );
    assert_eq!(devices.len(), 1);
    assert_eq!(
        watcher.handle_signal(&mut devices, &upower_signal("DeviceAdded", Some(BAT0))),
        Ok(vec![BusAction::Post(Message::FeatureUpdate(2))])
    );
    assert_eq!(devices.len(), 1);
}

#[test]
fn any_other_member_of_the_power_interface_removes() {
    let watcher = DbusWatcher::new(2);
    let mut devices = DeviceSet::new();
    watcher.add_device(&mut devices, BAT0);
    watcher.add_device(&mut devices, BAT1);
    let mut expected = removed(BAT1, "BAT1");
    expected.push(BusAction::Post(Message::FeatureUpdate(2)));
    assert_eq!(
        watcher.handle_signal(&mut devices, &upower_signal("DeviceRemoved", Some(BAT1))),
        Ok(expected)
    );
    let mut expected = removed(BAT0, "BAT0");
    expected.push(BusAction::Post(Message::FeatureUpdate(2)));
    assert_eq!(
        watcher.handle_signal(&mut devices, &upower_signal("Whatever", Some(BAT0))),
        Ok(expected)
    );
    assert_eq!(devices.len(), 0);
    assert_eq!(
        watcher.handle_signal(&mut devices, &upower_signal("DeviceRemoved", Some(BAT0))),
        Ok(vec![BusAction::Post(Message::FeatureUpdate(2))])
    );
}

#[test]
fn property_change_waits_and_posts() {
    let watcher = DbusWatcher::new(5);
    let mut devices = DeviceSet::new();
    watcher.add_device(&mut devices, BAT0);
    let signal = Signal {
        interface: "org.freedesktop.DBus.Properties".to_owned(),
        member: "PropertiesChanged".to_owned(),
        path: None,
    };
    assert_eq!(
        watcher.handle_signal(&mut devices, &signal),
        Ok(vec![BusAction::Sleep(2), BusAction::Post(Message::FeatureUpdate(5))])
    );
    assert_eq!(devices.paths(), vec![BAT0.to_owned()]);
}

#[test]
fn unrelated_signal_is_passed_over() {
    let watcher = DbusWatcher::new(5);
    let mut devices = DeviceSet::new();
    let signal = Signal {
        interface: "org.freedesktop.DBus".to_owned(),
        member: "NameAcquired".to_owned(),
        path: Some(BAT0.to_owned()),
    };
    assert_eq!(watcher.handle_signal(&mut devices, &signal), Ok(Vec::new()));
    assert_eq!(devices.len(), 0);
}

#[test]
fn power_signal_without_a_path_is_an_error() {
    let watcher = DbusWatcher::new(5);
    let mut devices = DeviceSet::new();
    watcher.add_device(&mut devices, BAT0);
    assert_eq!(
        watcher.handle_signal(&mut devices, &upower_signal("DeviceAdded", None)),
        Err(Error::MissingDevicePath)
    );
    assert_eq!(devices.len(), 1);
}
