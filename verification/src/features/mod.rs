//! The features a status line can show.

pub mod audio;
pub mod backlight;
pub mod battery;
pub mod network;
pub mod time;

use crate::error::Error;
use crate::error::ErrorView;
use crate::feature::{Composer, ComposerView, DataView, Notifier};
use crate::settings::Settings;
use crate::text::same_text;
use vstd::prelude::*;
use vstd::string::*;

verus! {

/// Whether a feature of this name exists.
pub open spec fn is_feature(name: Seq<char>) -> bool {
    ||| name == audio::FEATURE_NAME@
    ||| name == backlight::FEATURE_NAME@
    ||| name == battery::FEATURE_NAME@
    ||| name == network::FEATURE_NAME@
    ||| name == time::FEATURE_NAME@
}

/// The notifier of the feature `name` at index `id`.
pub open spec fn notifier_of(id: usize, name: Seq<char>) -> Notifier {
    if name == audio::FEATURE_NAME@ {
        Notifier::Audio(audio::Notifier { id })
    } else if name == backlight::FEATURE_NAME@ {
        Notifier::Backlight(backlight::Notifier { id })
    } else if name == battery::FEATURE_NAME@ {
        Notifier::Battery(battery::DbusWatcher { id })
    } else if name == network::FEATURE_NAME@ {
        Notifier::Network(network::Notifier { id })
    } else {
        Notifier::Time(time::Notifier { id })
    }
}

/// What the updater of the feature `name` is made with.
pub open spec fn data_of(name: Seq<char>, settings: audio::ConfigEntryView) -> DataView {
    if name == audio::FEATURE_NAME@ {
        DataView::Audio(settings)
    } else if name == backlight::FEATURE_NAME@ {
        DataView::Backlight
    } else if name == battery::FEATURE_NAME@ {
        DataView::Battery
    } else if name == network::FEATURE_NAME@ {
        DataView::Network
    } else {
        DataView::Time
    }
}

/// Makes the feature `name` for the place `id` in the line. The feature
/// starts with its notifier at hand and an empty text.
pub fn create_feature(id: usize, name: &str, settings: &Settings) -> (result: Result<
    Composer,
    Error,
>)
    ensures
        is_feature(name@) ==> result.is_ok() && result.unwrap()@ == (ComposerView {
            name: name@,
            notifier: Some(notifier_of(id, name@)),
            data: data_of(name@, settings.audio@),
            text: Seq::empty(),
        }),
        !is_feature(name@) ==> result.is_err() && result.unwrap_err()@
            == ErrorView::UnknownFeature(name@),
{
    if same_text(name, audio::FEATURE_NAME) {
        Ok(audio::create(id, &settings.audio))
    } else if same_text(name, backlight::FEATURE_NAME) {
        Ok(backlight::create(id))
    } else if same_text(name, battery::FEATURE_NAME) {
        Ok(battery::create(id))
    } else if same_text(name, network::FEATURE_NAME) {
        Ok(network::create(id))
    } else if same_text(name, time::FEATURE_NAME) {
        Ok(time::create(id))
    } else {
        Err(Error::UnknownFeature(String::from_str(name)))
    }
}

} // verus!
