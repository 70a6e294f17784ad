//! The settings of the audio feature and their defaults.

use super::FEATURE_NAME;
use crate::error::Error;
use crate::settings::{section_view, Config, SectionView, Value, ValueView};
use crate::text::{clone_texts, texts};
use vstd::prelude::*;
use vstd::string::*;

verus! {

/// How the volume is shown.
#[derive(Clone, Debug, PartialEq, Eq)]
pub struct RenderConfig {
    pub icons: Vec<String>,
    pub mute: String,
    pub template: String,
}

/// The settings of the audio feature.
#[derive(Clone, Debug, PartialEq, Eq)]
pub struct ConfigEntry {
    pub control: String,
    pub render: RenderConfig,
}

pub struct ConfigEntryView {
    pub control: Seq<char>,
    pub icons: Seq<Seq<char>>,
    pub mute: Seq<char>,
    pub template: Seq<char>,
}

impl View for ConfigEntry {
    type V = ConfigEntryView;

    open spec fn view(&self) -> ConfigEntryView {
        ConfigEntryView {
            control: self.control@,
            icons: texts(self.render.icons@),
            mute: self.render.mute@,
            template: self.render.template@,
        }
    }
}

/// The defaults of the audio feature: the control `Master`, no icons, the
/// word `MUTE` when muted, and the template `S {VOL}%`.
pub open spec fn default_values() -> Seq<(Seq<char>, ValueView)> {
    seq![
        ("control"@, ValueView::Text("Master"@)),
        ("icons"@, ValueView::List(Seq::empty())),
        ("mute"@, ValueView::Text("MUTE"@)),
        ("template"@, ValueView::Text("S {VOL}%"@)),
    ]
}

impl ConfigEntry {
    /// A copy of the settings.
    pub fn duplicate(&self) -> (copy: Self)
        ensures
            copy@ == self@,
    {
        ConfigEntry {
            control: self.control.clone(),
            render: RenderConfig {
                icons: clone_texts(&self.render.icons),
                mute: self.render.mute.clone(),
                template: self.render.template.clone(),
            },
        }
    }

    /// Declares the defaults of the audio feature in `config`.
    pub fn set_default(config: &mut Config) -> (result: Result<(), Error>)
        ensures
            final(config).is_frozen() == old(config).is_frozen(),
            old(config).is_frozen() ==> result == Err::<(), Error>(Error::ConfigFrozen)
                && final(config)@ == old(config)@,
            !old(config).is_frozen() ==> result.is_ok() && final(config)@ == old(config)@.push(
                SectionView { name: FEATURE_NAME@, values: default_values() },
            ),
    {
        let mut values: Vec<(String, Value)> = Vec::new();
        values.push((String::from_str("control"), Value::Text(String::from_str("Master"))));
        let icons: Vec<String> = Vec::new();
        values.push((String::from_str("icons"), Value::List(icons)));
        values.push((String::from_str("mute"), Value::Text(String::from_str("MUTE"))));
        values.push((String::from_str("template"), Value::Text(String::from_str("S {VOL}%"))));
        proof {
            assert(texts(icons@) =~= Seq::<Seq<char>>::empty());
            assert(section_view(values@) =~= default_values());
        }
        config.set_default(FEATURE_NAME, values)
    }
}

} // verus!
