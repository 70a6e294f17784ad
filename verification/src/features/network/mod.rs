//! The network feature.

pub mod notifier;

pub use self::notifier::Notifier;

use crate::feature::{
    Composer, ComposerView, Data, DataView, Notifier as FeatureNotifier, Updater,
};
use vstd::prelude::*;

verus! {

/// The name under which the network feature is configured.
pub const FEATURE_NAME: &'static str = "network";

/// The network feature with index `id`.
pub fn create(id: usize) -> (feature: Composer)
    ensures
        feature@ == (ComposerView {
            name: FEATURE_NAME@,
            notifier: Some(FeatureNotifier::Network(Notifier { id })),
            data: DataView::Network,
            text: Seq::empty(),
        }),
{
    Composer::new(
        FEATURE_NAME,
        FeatureNotifier::Network(Notifier::new(id)),
        Updater::new(Data::Network),
    )
}

} // verus!
