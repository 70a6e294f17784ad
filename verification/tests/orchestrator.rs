use status_line::communication::{Channel, Message};
use status_line::error::Error;
use status_line::feature::Notifier;
use status_line::features::audio::{ConfigEntry, RenderConfig};
use status_line::features::{audio, backlight, battery, create_feature, network, time};
use status_line::settings::{General, Settings};
use status_line::status_bar::{Redraw, StatusBar};
use status_line::{consume, run, startup, validate_settings};

fn settings(order: &[&str], separator: &str) -> Settings {
    Settings {
        general: General {
            order: order.iter().map(|name| (*name).to_owned()).collect(),
            separator: separator.to_owned(),
        },
        audio: ConfigEntry {
            control: "Master".to_owned(),
            render: RenderConfig {
                icons: Vec::new(),
                mute: "MUTE".to_owned(),
                template: "S {VOL}%".to_owned(),
            },
        },
    }
}

fn observations(texts: &[&str]) -> Vec<String> {
    texts.iter().map(|text| (*text).to_owned()).collect()
}

fn queue(messages: &[Message]) -> Channel {
    let mut channel = Channel::create();
    for message in messages {
        channel.send(*message);
    }
    channel
}

fn drain(channel: &mut Channel) -> Vec<Message> {
    let mut left = Vec::new();
    while let Some(message) = channel.read() {
        left.push(message);
    }
    left
}

fn redraw(updated: &[usize], line: &str) -> Redraw {
    Redraw { updated: updated.to_vec(), line: line.to_owned() }
}

#[test]
fn channel_is_first_in_first_out() {
    let mut channel = Channel::create();
    assert_eq!(channel.len(), 0);
    assert_eq!(channel.read(), None);
    channel.send(Message::FeatureUpdate(1));
    channel.send(Message::UpdateAll);
    channel.send(Message::FeatureUpdate(0));
    assert_eq!(channel.len(), 3);
    assert_eq!(channel.read(), Some(Message::FeatureUpdate(1)));
    assert_eq!(channel.read(), Some(Message::UpdateAll));
    assert_eq!(channel.len(), 1);
    assert_eq!(channel.read(), Some(Message::FeatureUpdate(0)));
    assert_eq!(channel.read(), None);
}

#[test]
fn empty_order_is_refused() {
    let settings = settings(&[], " / ");
    assert_eq!(validate_settings(&settings), Err(Error::NoFeatures));
    assert_eq!(startup(&settings), Err(Error::NoFeatures));
}

#[test]
fn duplicate_in_order_is_refused() {
    for order in [
        vec!["time", "time"],
        vec!["battery", "time", "battery"],
        vec!["audio", "battery", "time", "time"],
        vec!["nothing", "nothing"],
    ] {
        let settings = settings(&order, " / ");
        assert_eq!(validate_settings(&settings), Err(Error::DuplicateFeature));
        assert_eq!(startup(&settings), Err(Error::DuplicateFeature));
    }
}

#[test]
fn order_without_duplicates_is_valid() {
    assert_eq!(validate_settings(&settings(&["time"], "")), Ok(()));
    assert_eq!(validate_settings(&settings(&["battery", "time", "audio"], "")), Ok(()));
    assert_eq!(validate_settings(&settings(&["nothing"], "")), Ok(()));
}

#[test]
fn unknown_feature_is_refused_by_name() {
    let settings = settings(&["time", "weather", "audio", "moon"], " / ");
    assert_eq!(validate_settings(&settings), Ok(()));
    assert_eq!(startup(&settings), Err(Error::UnknownFeature("weather".to_owned())));
    assert_eq!(
        create_feature(0, "weather", &settings),
        Err(Error::UnknownFeature("weather".to_owned()))
    );
    assert_eq!(create_feature(0, "", &settings), Err(Error::UnknownFeature(String::new())));
    assert_eq!(
        create_feature(0, "Audio", &settings),
        Err(Error::UnknownFeature("Audio".to_owned()))
    );
}

#[test]
fn every_feature_can_be_created() {
    let settings = settings(&["time"], " / ");
    let expected = [
        ("audio", Notifier::Audio(audio::Notifier { id: 7 })),
        ("backlight", Notifier::Backlight(backlight::Notifier { id: 7 })),
        ("battery", Notifier::Battery(battery::DbusWatcher { id: 7 })),
        ("network", Notifier::Network(network::Notifier { id: 7 })),
        ("time", Notifier::Time(time::Notifier { id: 7 })),
    ];
    for (name, notifier) in expected {
        let mut feature = create_feature(7, name, &settings).unwrap();
        assert_eq!(feature.name(), name);
        assert_eq!(feature.text(), "");
        assert_eq!(notifier.id(), 7);
        assert_eq!(feature.init_notifier(), Ok(notifier));
        assert_eq!(feature.init_notifier(), Err(Error::NotifierGone));
    }
}

#[test]
fn startup_hands_out_one_notifier_for_each_feature() {
    let settings = settings(&["battery", "time", "audio", "network", "backlight"], " / ");
    let started = startup(&settings).unwrap();
    assert_eq!(
        started.notifiers,
        vec![
            Notifier::Battery(battery::DbusWatcher { id: 0 }),
            Notifier::Time(time::Notifier { id: 1 }),
            Notifier::Audio(audio::Notifier { id: 2 }),
            Notifier::Network(network::Notifier { id: 3 }),
            Notifier::Backlight(backlight::Notifier { id: 4 }),
        ]
    );
    assert_eq!(started.features.len(), 5);
    for (index, feature) in started.features.iter().enumerate() {
        assert_eq!(*feature.name(), settings.general.order[index]);
        assert_eq!(feature.text(), "");
        assert_eq!(started.notifiers[index].id(), index);
    }
    let mut features = started.features;
    assert_eq!(features[0].init_notifier(), Err(Error::NotifierGone));
}

#[test]
fn refused_order_starts_nothing_and_leaves_the_queue() {
    let mut channel = queue(&[Message::FeatureUpdate(0), Message::Kill]);
    let seen = observations(&["a", "b"]);
    assert_eq!(
        run(&settings(&["time", "time"], ""), &mut channel, &seen),
        Err(Error::DuplicateFeature)
    );
    assert_eq!(channel.len(), 2);
    assert_eq!(run(&settings(&[], ""), &mut channel, &seen), Err(Error::NoFeatures));
    assert_eq!(
        run(&settings(&["time", "tide"], ""), &mut channel, &seen),
        Err(Error::UnknownFeature("tide".to_owned()))
    );
    assert_eq!(drain(&mut channel), vec![Message::FeatureUpdate(0), Message::Kill]);
}

#[test]
fn update_all_recomputes_every_feature_in_order() {
    let settings = settings(&["battery", "time", "audio"], " / ");
    let mut channel = Channel::create();
    let outcome = run(&settings, &mut channel, &observations(&["B 80%", "12:00", "S 40%"]))
        .unwrap();
    assert_eq!(outcome.redraws, vec![redraw(&[0, 1, 2], "B 80% / 12:00 / S 40%")]);
    assert!(!outcome.killed);
    assert_eq!(outcome.notifiers.len(), 3);
    assert_eq!(channel.len(), 0);
    let segments: Vec<&str> = outcome.redraws[0].line.split(" / ").collect();
    assert_eq!(segments, vec!["B 80%", "12:00", "S 40%"]);
    assert!(segments.iter().all(|segment| !segment.is_empty()));
}

#[test]
fn kill_stops_after_what_was_queued_before_it() {
    let settings = settings(&["battery", "time", "audio"], "|");
    let mut channel = queue(&[
        Message::FeatureUpdate(1),
        Message::FeatureUpdate(2),
        Message::Kill,
        Message::FeatureUpdate(0),
        Message::Kill,
    ]);
    let outcome = run(&settings, &mut channel, &observations(&["b", "t", "a"])).unwrap();
    assert!(outcome.killed);
    assert_eq!(outcome.redraws, vec![redraw(&[1], "|t|"), redraw(&[2], "|t|a")]);
    assert_eq!(
        drain(&mut channel),
        vec![Message::FeatureUpdate(0), Message::Kill, Message::UpdateAll]
    );
}

#[test]
fn kill_first_serves_nothing() {
    let settings = settings(&["time"], "");
    let mut channel = queue(&[Message::Kill, Message::UpdateAll]);
    let outcome = run(&settings, &mut channel, &observations(&["12:00"])).unwrap();
    assert!(outcome.killed);
    assert!(outcome.redraws.is_empty());
    assert_eq!(outcome.notifiers, vec![Notifier::Time(time::Notifier { id: 0 })]);
    assert_eq!(drain(&mut channel), vec![Message::UpdateAll, Message::UpdateAll]);
}

#[test]
fn single_update_keeps_the_other_texts() {
    let settings = settings(&["time", "audio"], " ");
    let mut channel = queue(&[Message::UpdateAll, Message::FeatureUpdate(1)]);
    let outcome = run(&settings, &mut channel, &observations(&["12:00", "S 40%"])).unwrap();
    assert!(!outcome.killed);
    assert_eq!(
        outcome.redraws,
        vec![
            redraw(&[0, 1], "12:00 S 40%"),
            redraw(&[1], "12:00 S 40%"),
            redraw(&[0, 1], "12:00 S 40%"),
        ]
    );
}

#[test]
fn message_for_a_missing_feature_is_an_error() {
    let settings = settings(&["time", "audio"], " ");
    let mut channel = queue(&[
        Message::FeatureUpdate(0),
        Message::FeatureUpdate(2),
        Message::FeatureUpdate(1),
    ]);
    assert_eq!(
        run(&settings, &mut channel, &observations(&["12:00", "S 40%"])),
        Err(Error::UnknownIndex(2))
    );
    assert_eq!(drain(&mut channel), vec![Message::FeatureUpdate(1), Message::UpdateAll]);
}

#[test]
fn missing_observation_reads_as_empty() {
    let settings = settings(&["time", "audio", "battery"], "-");
    let mut channel = Channel::create();
    let outcome = run(&settings, &mut channel, &observations(&["12:00"])).unwrap();
    assert_eq!(outcome.redraws, vec![redraw(&[0, 1, 2], "12:00--")]);
}

#[test]
fn status_bar_serves_one_message_at_a_time() {
    let settings = settings(&["battery", "time"], ", ");
    let started = startup(&settings).unwrap();
    let mut bar = StatusBar::init(started.features);
    assert_eq!(bar.len(), 2);
    assert_eq!(bar.render(&settings.general), ", ");
    assert_eq!(bar.targets(&Message::UpdateAll), Ok(vec![0, 1]));
    assert_eq!(bar.targets(&Message::FeatureUpdate(1)), Ok(vec![1]));
    assert_eq!(bar.targets(&Message::Kill), Ok(vec![]));
    assert_eq!(bar.targets(&Message::FeatureUpdate(2)), Err(Error::UnknownIndex(2)));
    let seen = observations(&["B 50%", "09:30"]);
    assert_eq!(
        bar.update(&Message::FeatureUpdate(1), &settings.general, &seen),
        Ok(redraw(&[1], ", 09:30"))
    );
    assert_eq!(
        bar.update(&Message::FeatureUpdate(5), &settings.general, &seen),
        Err(Error::UnknownIndex(5))
    );
    assert_eq!(bar.render(&settings.general), ", 09:30");
    let later = observations(&["B 49%", "09:31"]);
    assert_eq!(
        bar.update(&Message::FeatureUpdate(0), &settings.general, &later),
        Ok(redraw(&[0], "B 49%, 09:30"))
    );
    assert_eq!(
        bar.update(&Message::UpdateAll, &settings.general, &later),
        Ok(redraw(&[0, 1], "B 49%, 09:31"))
    );
    assert_eq!(
        bar.update(&Message::Kill, &settings.general, &seen),
        Ok(redraw(&[], "B 49%, 09:31"))
    );
}

#[test]
fn consume_goes_on_from_the_texts_it_finds() {
    let settings = settings(&["battery", "time"], "/");
    let started = startup(&settings).unwrap();
    let mut bar = StatusBar::init(started.features);
    let mut channel = queue(&[Message::UpdateAll]);
    let served = consume(&mut bar, &mut channel, &settings.general, &observations(&["b", "t"]))
        .unwrap();
    assert!(!served.killed);
    assert_eq!(served.redraws, vec![redraw(&[0, 1], "b/t")]);
    let mut channel = queue(&[Message::FeatureUpdate(0), Message::Kill, Message::UpdateAll]);
    let served = consume(&mut bar, &mut channel, &settings.general, &observations(&["B", "T"]))
        .unwrap();
    assert!(served.killed);
    assert_eq!(served.redraws, vec![redraw(&[0], "B/t")]);
    assert_eq!(drain(&mut channel), vec![Message::UpdateAll]);
    assert_eq!(bar.render(&settings.general), "B/t");
}
