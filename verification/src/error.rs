//! The errors the library reports.

use crate::text::{decimal, decimal_text};
use vstd::prelude::*;
use vstd::string::*;

verus! {

/// Why an operation was refused.
#[derive(Clone, Debug, PartialEq, Eq)]
pub enum Error {
    /// The configured order names no feature.
    NoFeatures,
    /// The configured order names one feature more than once.
    DuplicateFeature,
    /// The configured order names a feature that does not exist.
    UnknownFeature(String),
    /// A message names a feature index that no feature has.
    UnknownIndex(usize),
    /// A signal of the power interface carried no device path.
    MissingDevicePath,
    /// The notifier of a feature was asked for a second time.
    NotifierGone,
    /// A default was set on a configuration that takes no more changes.
    ConfigFrozen,
    /// The status text holds a NUL character.
    InvalidText,
}

/// An error with its strings read as character sequences.
pub enum ErrorView {
    NoFeatures,
    DuplicateFeature,
    UnknownFeature(Seq<char>),
    UnknownIndex(usize),
    MissingDevicePath,
    NotifierGone,
    ConfigFrozen,
    InvalidText,
}

impl View for Error {
    type V = ErrorView;

    open spec fn view(&self) -> ErrorView {
        match *self {
            Error::NoFeatures => ErrorView::NoFeatures,
            Error::DuplicateFeature => ErrorView::DuplicateFeature,
            Error::UnknownFeature(name) => ErrorView::UnknownFeature(name@),
            Error::UnknownIndex(index) => ErrorView::UnknownIndex(index),
            Error::MissingDevicePath => ErrorView::MissingDevicePath,
            Error::NotifierGone => ErrorView::NotifierGone,
            Error::ConfigFrozen => ErrorView::ConfigFrozen,
            Error::InvalidText => ErrorView::InvalidText,
        }
    }
}

/// The part of the program that an error comes from.
pub open spec fn name_of(error: ErrorView) -> Seq<char> {
    match error {
        ErrorView::NoFeatures => "settings"@,
        ErrorView::DuplicateFeature => "settings"@,
        ErrorView::UnknownFeature(_) => "create feature"@,
        ErrorView::UnknownIndex(_) => "status bar"@,
        ErrorView::MissingDevicePath => "battery"@,
        ErrorView::NotifierGone => "feature"@,
        ErrorView::ConfigFrozen => "settings"@,
        ErrorView::InvalidText => "render"@,
    }
}

/// What went wrong, in words.
pub open spec fn description_of(error: ErrorView) -> Seq<char> {
    match error {
        ErrorView::NoFeatures => "no features enabled"@,
        ErrorView::DuplicateFeature => "order must not have more than one entry of one feature"@,
        ErrorView::UnknownFeature(name) => "feature "@ + name + " doas not exist"@,
        ErrorView::UnknownIndex(index) => "feature "@ + decimal(index as nat)
            + " is not in the order"@,
        ErrorView::MissingDevicePath => "signal names no device"@,
        ErrorView::NotifierGone => "notifier was handed out before"@,
        ErrorView::ConfigFrozen => "defaults can no longer be set"@,
        ErrorView::InvalidText => "status text could not be converted to CString"@,
    }
}

impl Error {
    /// The part of the program that the error comes from.
    pub fn name(&self) -> (name: String)
        ensures
            name@ == name_of(self@),
    {
        match self {
            Error::NoFeatures => String::from_str("settings"),
            Error::DuplicateFeature => String::from_str("settings"),
            Error::UnknownFeature(_) => String::from_str("create feature"),
            Error::UnknownIndex(_) => String::from_str("status bar"),
            Error::MissingDevicePath => String::from_str("battery"),
            Error::NotifierGone => String::from_str("feature"),
            Error::ConfigFrozen => String::from_str("settings"),
            Error::InvalidText => String::from_str("render"),
        }
    }

    /// What went wrong, in words.
    pub fn description(&self) -> (description: String)
        ensures
            description@ == description_of(self@),
    {
        match self {
            Error::NoFeatures => String::from_str("no features enabled"),
            Error::DuplicateFeature => String::from_str(
                "order must not have more than one entry of one feature",
            ),
            Error::UnknownFeature(name) => {
                let mut description = String::from_str("feature ");
                description.append(name.as_str());
                description.append(" doas not exist");
                description
            },
            Error::UnknownIndex(index) => {
                let mut description = String::from_str("feature ");
                let number = decimal_text(*index as u64);
                description.append(number.as_str());
                description.append(" is not in the order");
                description
            },
            Error::MissingDevicePath => String::from_str("signal names no device"),
            Error::NotifierGone => String::from_str("notifier was handed out before"),
            Error::ConfigFrozen => String::from_str("defaults can no longer be set"),
            Error::InvalidText => String::from_str(
                "status text could not be converted to CString",
            ),
        }
    }
}

} // verus!
