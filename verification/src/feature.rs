//! A feature: a notifier and an updater under one name.

use crate::error::Error;
use crate::features::audio;
use crate::features::backlight;
use crate::features::battery::dbus::DbusWatcher;
use crate::features::network;
use crate::features::time;
use crate::text::texts;
use vstd::prelude::*;
use vstd::string::*;

verus! {

/// A program to run as a child process, with its arguments.
#[derive(Clone, Debug, PartialEq, Eq)]
pub struct Command {
    pub program: String,
    pub arguments: Vec<String>,
}

pub struct CommandView {
    pub program: Seq<char>,
    pub arguments: Seq<Seq<char>>,
}

impl View for Command {
    type V = CommandView;

    open spec fn view(&self) -> CommandView {
        CommandView { program: self.program@, arguments: texts(self.arguments@) }
    }
}

/// The watcher of one feature's source of events. It runs on a thread of
/// its own and only signals that something may have changed.
#[derive(Clone, Copy, Debug, PartialEq, Eq, Structural)]
pub enum Notifier {
    Audio(audio::Notifier),
    Backlight(backlight::Notifier),
    Battery(DbusWatcher),
    Network(network::Notifier),
    Time(time::Notifier),
}

impl Notifier {
    /// The index of the feature that the notifier posts for.
    pub open spec fn spec_id(&self) -> usize {
        match *self {
            Notifier::Audio(n) => n.id,
            Notifier::Backlight(n) => n.id,
            Notifier::Battery(n) => n.id,
            Notifier::Network(n) => n.id,
            Notifier::Time(n) => n.id,
        }
    }

    /// The index of the feature that the notifier posts for.
    #[verifier::when_used_as_spec(spec_id)]
    pub fn id(&self) -> (id: usize)
        ensures
            id == self.spec_id(),
    {
        match self {
            Notifier::Audio(n) => n.id,
            Notifier::Backlight(n) => n.id,
            Notifier::Battery(n) => n.id,
            Notifier::Network(n) => n.id,
            Notifier::Time(n) => n.id,
        }
    }
}

/// What an updater needs besides the observation.
#[derive(Clone, Debug, PartialEq, Eq)]
pub enum Data {
    Audio(audio::ConfigEntry),
    Backlight,
    Battery,
    Network,
    Time,
}

pub enum DataView {
    Audio(audio::ConfigEntryView),
    Backlight,
    Battery,
    Network,
    Time,
}

impl View for Data {
    type V = DataView;

    open spec fn view(&self) -> DataView {
        match *self {
            Data::Audio(settings) => DataView::Audio(settings@),
            Data::Backlight => DataView::Backlight,
            Data::Battery => DataView::Battery,
            Data::Network => DataView::Network,
            Data::Time => DataView::Time,
        }
    }
}

/// Recomputes the text of one feature from the latest observation, and
/// keeps it. It runs on the consumer's side only.
#[derive(Clone, Debug, PartialEq, Eq)]
pub struct Updater {
    data: Data,
    text: String,
}

pub struct UpdaterView {
    pub data: DataView,
    pub text: Seq<char>,
}

impl View for Updater {
    type V = UpdaterView;

    closed spec fn view(&self) -> UpdaterView {
        UpdaterView { data: self.data@, text: self.text@ }
    }
}

impl Updater {
    /// An updater that has seen nothing: its text is empty.
    pub fn new(data: Data) -> (updater: Self)
        ensures
            updater@ == (UpdaterView { data: data@, text: Seq::empty() }),
    {
        Updater { data, text: String::new() }
    }

    /// What the updater was made with.
    pub fn data(&self) -> (data: &Data)
        ensures
            data@ == self@.data,
    {
        &self.data
    }

    /// The text computed last.
    pub fn text(&self) -> (text: &String)
        ensures
            text@ == self@.text,
    {
        &self.text
    }

    /// Takes in an observation and returns the new text, which is the
    /// observation as it stands.
    pub fn update(&mut self, observation: &str) -> (text: String)
        ensures
            text@ == observation@,
            final(self)@ == (UpdaterView { text: observation@, ..old(self)@ }),
    {
        self.text = String::from_str(observation);
        String::from_str(observation)
    }
}

/// One feature as the consumer manages it: a name, the notifier until it
/// is handed to its thread, and the updater.
#[derive(Clone, Debug, PartialEq, Eq)]
pub struct Composer {
    name: String,
    notifier: Option<Notifier>,
    updater: Updater,
}

pub struct ComposerView {
    pub name: Seq<char>,
    pub notifier: Option<Notifier>,
    pub data: DataView,
    pub text: Seq<char>,
}

impl View for Composer {
    type V = ComposerView;

    closed spec fn view(&self) -> ComposerView {
        ComposerView {
            name: self.name@,
            notifier: self.notifier,
            data: self.updater@.data,
            text: self.updater@.text,
        }
    }
}

impl Composer {
    /// Puts a notifier and an updater under one name.
    pub fn new(name: &str, notifier: Notifier, updater: Updater) -> (feature: Self)
        ensures
            feature@ == (ComposerView {
                name: name@,
                notifier: Some(notifier),
                data: updater@.data,
                text: updater@.text,
            }),
    {
        Composer { name: String::from_str(name), notifier: Some(notifier), updater }
    }

    /// The name of the feature.
    pub fn name(&self) -> (name: &String)
        ensures
            name@ == self@.name,
    {
        &self.name
    }

    /// The text computed last.
    pub fn text(&self) -> (text: &String)
        ensures
            text@ == self@.text,
    {
        self.updater.text()
    }

    /// The updater of the feature.
    pub fn updater(&self) -> (updater: &Updater)
        ensures
            updater@ == (UpdaterView { data: self@.data, text: self@.text }),
    {
        &self.updater
    }

    /// Hands out the notifier, to be run on a thread of its own. It can be
    /// had once.
    pub fn init_notifier(&mut self) -> (result: Result<Notifier, Error>)
        ensures
            final(self)@ == (ComposerView { notifier: None, ..old(self)@ }),
            match old(self)@.notifier {
                Some(notifier) => result == Ok::<Notifier, Error>(notifier),
                None => result == Err::<Notifier, Error>(Error::NotifierGone),
            },
    {
        match self.notifier.take() {
            Some(notifier) => Ok(notifier),
            None => Err(Error::NotifierGone),
        }
    }

    /// Recomputes the text from an observation and returns it.
    pub fn update(&mut self, observation: &str) -> (text: String)
        ensures
            text@ == observation@,
            final(self)@ == (ComposerView { text: observation@, ..old(self)@ }),
    {
        self.updater.update(observation)
    }
}

} // verus!
