//! The battery feature: which devices exist, and when to warn.

pub mod data;
pub mod dbus;
pub mod notifier;

pub use self::dbus::DbusWatcher;
pub use self::notifier::BatteryNotifier;

use crate::feature::{
    Composer, ComposerView, Data, DataView, Notifier as FeatureNotifier, Updater,
};
use vstd::prelude::*;

verus! {

/// The name under which the battery feature is configured.
pub const FEATURE_NAME: &'static str = "battery";

/// The battery feature with index `id`.
pub fn create(id: usize) -> (feature: Composer)
    ensures
        feature@ == (ComposerView {
            name: FEATURE_NAME@,
            notifier: Some(FeatureNotifier::Battery(DbusWatcher { id })),
            data: DataView::Battery,
            text: Seq::empty(),
        }),
{
    Composer::new(
        FEATURE_NAME,
        FeatureNotifier::Battery(DbusWatcher::new(id)),
        Updater::new(Data::Battery),
    )
}

} // verus!
