use status_line::error::Error;
use status_line::features::audio::ConfigEntry;
use status_line::settings::{Config, Value};

fn default_map() -> Vec<(String, Value)> {
    vec![
        ("control".to_owned(), Value::Text("Master".to_owned())),
        ("icons".to_owned(), Value::List(Vec::<String>::new())),
        ("mute".to_owned(), Value::Text("MUTE".to_owned())),
        ("template".to_owned(), Value::Text("S {VOL}%".to_owned())),
    ]
}

#[test]
fn config_type_set_default_when_ok() {
    let mut config = Config::new();
    assert_eq!(ConfigEntry::set_default(&mut config), Ok(()));
    assert_eq!(config.sections().len(), 1);
    assert_eq!(config.sections()[0].name, "audio");
    assert_eq!(config.sections()[0].values, default_map());
}

#[test]
fn config_type_set_default_when_err() {
    let mut config = Config::new();
    config.freeze();
    assert_eq!(ConfigEntry::set_default(&mut config), Err(Error::ConfigFrozen));
    assert!(config.sections().is_empty());
}

#[test]
fn set_default_keeps_the_order_of_declaration() {
    let mut config = Config::new();
    assert_eq!(
        config.set_default("time", vec![("format".to_owned(), Value::Text("%H:%M".to_owned()))]),
        Ok(())
    );
    assert_eq!(ConfigEntry::set_default(&mut config), Ok(()));
    assert!(!config.frozen());
    assert_eq!(config.sections().len(), 2);
    assert_eq!(config.sections()[0].name, "time");
    assert_eq!(config.sections()[1].name, "audio");
    assert_eq!(config.sections()[1].values, default_map());
}

#[test]
fn frozen_config_stays_as_it_was() {
    let mut config = Config::new();
    assert_eq!(ConfigEntry::set_default(&mut config), Ok(()));
    config.freeze();
    assert!(config.frozen());
    assert_eq!(config.set_default("time", Vec::new()), Err(Error::ConfigFrozen));
    assert_eq!(config.sections().len(), 1);
}
