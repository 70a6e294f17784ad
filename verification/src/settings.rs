//! The settings of the status line and the store of their defaults.

use crate::error::Error;
use crate::features::audio;
use crate::text::texts;
use vstd::prelude::*;
use vstd::string::*;

verus! {

/// A configured value.
#[derive(Clone, Debug, PartialEq, Eq)]
pub enum Value {
    Text(String),
    List(Vec<String>),
}

pub enum ValueView {
    Text(Seq<char>),
    List(Seq<Seq<char>>),
}

impl View for Value {
    type V = ValueView;

    open spec fn view(&self) -> ValueView {
        match *self {
            Value::Text(text) => ValueView::Text(text@),
            Value::List(items) => ValueView::List(texts(items@)),
        }
    }
}

/// The values of one section, each under its key.
pub open spec fn section_view(values: Seq<(String, Value)>) -> Seq<(Seq<char>, ValueView)> {
    values.map_values(|pair: (String, Value)| (pair.0@, pair.1@))
}

/// The defaults of one section.
#[derive(Clone, Debug, PartialEq, Eq)]
pub struct Section {
    pub name: String,
    pub values: Vec<(String, Value)>,
}

pub struct SectionView {
    pub name: Seq<char>,
    pub values: Seq<(Seq<char>, ValueView)>,
}

impl View for Section {
    type V = SectionView;

    open spec fn view(&self) -> SectionView {
        SectionView { name: self.name@, values: section_view(self.values@) }
    }
}

/// The defaults that the features have declared, in the order in which
/// they were declared. Once frozen, it takes no more of them.
#[derive(Clone, Debug, PartialEq, Eq)]
pub struct Config {
    frozen: bool,
    sections: Vec<Section>,
}

impl View for Config {
    type V = Seq<SectionView>;

    closed spec fn view(&self) -> Seq<SectionView> {
        self.sections@.map_values(|s: Section| s@)
    }
}

impl Config {
    /// Whether the store takes no more defaults.
    pub closed spec fn is_frozen(&self) -> bool {
        self.frozen
    }

    /// An empty store that takes defaults.
    pub fn new() -> (config: Self)
        ensures
            config@ == Seq::<SectionView>::empty(),
            !config.is_frozen(),
    {
        let config = Config { frozen: false, sections: Vec::new() };
        assert(config@ =~= Seq::<SectionView>::empty());
        config
    }

    /// Closes the store to further defaults.
    pub fn freeze(&mut self)
        ensures
            final(self).is_frozen(),
            final(self)@ == old(self)@,
    {
        self.frozen = true;
    }

    /// Whether the store takes no more defaults.
    pub fn frozen(&self) -> (frozen: bool)
        ensures
            frozen == self.is_frozen(),
    {
        self.frozen
    }

    /// The declared defaults, in the order of their declaration.
    pub fn sections(&self) -> (sections: &Vec<Section>)
        ensures
            sections@.map_values(|s: Section| s@) == self@,
    {
        &self.sections
    }

    /// Declares the defaults of the section `name`. A frozen store refuses
    /// them and stays as it is.
    pub fn set_default(&mut self, name: &str, values: Vec<(String, Value)>) -> (result: Result<
        (),
        Error,
    >)
        ensures
            final(self).is_frozen() == old(self).is_frozen(),
            old(self).is_frozen() ==> result == Err::<(), Error>(Error::ConfigFrozen)
                && final(self)@ == old(self)@,
            !old(self).is_frozen() ==> result.is_ok() && final(self)@ == old(self)@.push(
                SectionView { name: name@, values: section_view(values@) },
            ),
    {
        if self.frozen {
            return Err(Error::ConfigFrozen);
        }
        let section = Section { name: String::from_str(name), values };
        self.sections.push(section);
        assert(self@ =~= old(self)@.push(
            SectionView { name: name@, values: section_view(values@) },
        ));
        Ok(())
    }
}

/// Settings that concern the line as a whole.
#[derive(Clone, Debug, PartialEq, Eq)]
pub struct General {
    /// The names of the enabled features, in the order of their display.
    pub order: Vec<String>,
    /// What stands between the texts of two features.
    pub separator: String,
}

/// All settings.
#[derive(Clone, Debug, PartialEq, Eq)]
pub struct Settings {
    pub general: General,
    pub audio: audio::ConfigEntry,
}

} // verus!
