use status_line::error::Error;
use status_line::status_bar::validate_line;

#[test]
fn errors_name_where_they_come_from() {
    assert_eq!(Error::NoFeatures.name(), "settings");
    assert_eq!(Error::DuplicateFeature.name(), "settings");
    assert_eq!(Error::UnknownFeature("moon".to_owned()).name(), "create feature");
    assert_eq!(Error::UnknownIndex(3).name(), "status bar");
    assert_eq!(Error::MissingDevicePath.name(), "battery");
    assert_eq!(Error::NotifierGone.name(), "feature");
    assert_eq!(Error::ConfigFrozen.name(), "settings");
    assert_eq!(Error::InvalidText.name(), "render");
}

#[test]
fn errors_describe_themselves() {
    assert_eq!(Error::NoFeatures.description(), "no features enabled");
    assert_eq!(
        Error::DuplicateFeature.description(),
        "order must not have more than one entry of one feature"
    );
    assert_eq!(
        Error::UnknownFeature("moon".to_owned()).description(),
        "feature moon doas not exist"
    );
    assert_eq!(Error::UnknownFeature(String::new()).description(), "feature  doas not exist");
    assert_eq!(Error::UnknownIndex(12).description(), "feature 12 is not in the order");
    assert_eq!(Error::UnknownIndex(0).description(), "feature 0 is not in the order");
    assert_eq!(Error::MissingDevicePath.description(), "signal names no device");
    assert_eq!(Error::NotifierGone.description(), "notifier was handed out before");
    assert_eq!(Error::ConfigFrozen.description(), "defaults can no longer be set");
    assert_eq!(
        Error::InvalidText.description(),
        "status text could not be converted to CString"
    );
}

#[test]
fn line_with_a_nul_is_refused() {
    assert_eq!(validate_line("B 80% / 12:00"), Ok(()));
    assert_eq!(validate_line(""), Ok(()));
    assert_eq!(validate_line("a\0b"), Err(Error::InvalidText));
    assert_eq!(validate_line("\0"), Err(Error::InvalidText));
    assert_eq!(validate_line("ab\0"), Err(Error::InvalidText));
}
