//! The clock feature.

use crate::communication::{send_message, Action, Message};
use crate::feature::{
    Composer, ComposerView, Data, DataView, Notifier as FeatureNotifier, Updater,
};
use vstd::prelude::*;

verus! {

/// The name under which the clock feature is configured.
pub const FEATURE_NAME: &'static str = "time";

/// Seconds between two updates of the clock.
pub const UPDATE_SECONDS: u64 = 60;

/// The notifier of the clock: a timer.
#[derive(Clone, Copy, Debug, PartialEq, Eq, Structural)]
pub struct Notifier {
    pub id: usize,
}

impl Notifier {
    /// A notifier for the feature with index `id`.
    pub fn new(id: usize) -> (notifier: Self)
        ensures
            notifier.id == id,
    {
        Notifier { id }
    }

    /// One round of the timer: wait for the interval, then post.
    pub fn run(&self) -> (actions: Vec<Action>)
        ensures
            actions@ == seq![
                Action::Sleep(UPDATE_SECONDS),
                Action::Post(Message::FeatureUpdate(self.id)),
            ],
    {
        let mut actions: Vec<Action> = Vec::new();
        actions.push(Action::Sleep(UPDATE_SECONDS));
        actions.push(send_message(self.id));
        assert(actions@ =~= seq![
            Action::Sleep(UPDATE_SECONDS),
            Action::Post(Message::FeatureUpdate(self.id)),
        ]);
        actions
    }
}

/// The clock feature with index `id`.
pub fn create(id: usize) -> (feature: Composer)
    ensures
        feature@ == (ComposerView {
            name: FEATURE_NAME@,
            notifier: Some(FeatureNotifier::Time(Notifier { id })),
            data: DataView::Time,
            text: Seq::empty(),
        }),
{
    Composer::new(
        FEATURE_NAME,
        FeatureNotifier::Time(Notifier::new(id)),
        Updater::new(Data::Time),
    )
}

} // verus!
