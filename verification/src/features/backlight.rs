//! The backlight feature.

use crate::communication::{send_message, Action, Message};
use crate::feature::{
    Composer, ComposerView, Data, DataView, Notifier as FeatureNotifier, Updater,
};
use vstd::prelude::*;

verus! {

/// The name under which the backlight feature is configured.
pub const FEATURE_NAME: &'static str = "backlight";

/// Seconds between two looks at the brightness.
pub const POLL_SECONDS: u64 = 1;

/// The notifier of the backlight: it polls.
#[derive(Clone, Copy, Debug, PartialEq, Eq, Structural)]
pub struct Notifier {
    pub id: usize,
}

impl Notifier {
    /// A notifier for the feature with index `id`.
    pub fn new(id: usize) -> (notifier: Self)
        ensures
            notifier.id == id,
    {
        Notifier { id }
    }

    /// One round of polling: wait for the interval, then post.
    pub fn run(&self) -> (actions: Vec<Action>)
        ensures
            actions@ == seq![
                Action::Sleep(POLL_SECONDS),
                Action::Post(Message::FeatureUpdate(self.id)),
            ],
    {
        let mut actions: Vec<Action> = Vec::new();
        actions.push(Action::Sleep(POLL_SECONDS));
        actions.push(send_message(self.id));
        assert(actions@ =~= seq![
            Action::Sleep(POLL_SECONDS),
            Action::Post(Message::FeatureUpdate(self.id)),
        ]);
        actions
    }
}

/// The backlight feature with index `id`.
pub fn create(id: usize) -> (feature: Composer)
    ensures
        feature@ == (ComposerView {
            name: FEATURE_NAME@,
            notifier: Some(FeatureNotifier::Backlight(Notifier { id })),
            data: DataView::Backlight,
            text: Seq::empty(),
        }),
{
    Composer::new(
        FEATURE_NAME,
        FeatureNotifier::Backlight(Notifier::new(id)),
        Updater::new(Data::Backlight),
    )
}

} // verus!
