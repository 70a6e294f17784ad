//! The audio feature.

pub mod config;
pub mod notifier;

pub use self::config::ConfigEntry;
pub use self::config::ConfigEntryView;
pub use self::config::RenderConfig;
pub use self::notifier::Notifier;

use crate::feature::{
    Composer, ComposerView, Data, DataView, Notifier as FeatureNotifier, Updater,
};
use vstd::prelude::*;

verus! {

/// The name under which the audio feature is configured.
pub const FEATURE_NAME: &'static str = "audio";

/// The audio feature with index `id`, shown as `settings` say.
pub fn create(id: usize, settings: &ConfigEntry) -> (feature: Composer)
    ensures
        feature@ == (ComposerView {
            name: FEATURE_NAME@,
            notifier: Some(FeatureNotifier::Audio(Notifier { id })),
            data: DataView::Audio(settings@),
            text: Seq::empty(),
        }),
{
    Composer::new(
        FEATURE_NAME,
        FeatureNotifier::Audio(Notifier::new(id)),
        Updater::new(Data::Audio(settings.duplicate())),
    )
}

} // verus!
