//! When to warn that the battery runs low.

use crate::text::{decimal, decimal_text, two_digits, two_digits_text};
use vstd::prelude::*;
use vstd::string::*;

verus! {

/// The capacities, in percent, at or under which a warning is due, lowest
/// first.
pub const LEVELS: [u32; 5] = [2, 5, 10, 15, 20];

/// The level at or under which a warning is critical.
pub const CRITICAL: u32 = 10;

/// How pressing a notification is.
#[derive(Clone, Copy, Debug, PartialEq, Eq, Structural)]
pub enum Urgency {
    Normal,
    Critical,
}

/// A warning to show to the user.
#[derive(Clone, Debug, PartialEq, Eq)]
pub struct Notification {
    pub summary: String,
    pub body: String,
    pub urgency: Urgency,
}

pub struct NotificationView {
    pub summary: Seq<char>,
    pub body: Seq<char>,
    pub urgency: Urgency,
}

impl View for Notification {
    type V = NotificationView;

    open spec fn view(&self) -> NotificationView {
        NotificationView { summary: self.summary@, body: self.body@, urgency: self.urgency }
    }
}

/// The warning levels as a sequence.
pub open spec fn levels() -> Seq<u32> {
    LEVELS@
}

/// The lowest level that is not under `capacity`, if there is one.
pub open spec fn crossed(capacity: u32) -> Option<u32> {
    if capacity <= 2 {
        Some(2u32)
    } else if capacity <= 5 {
        Some(5u32)
    } else if capacity <= 10 {
        Some(10u32)
    } else if capacity <= 15 {
        Some(15u32)
    } else if capacity <= 20 {
        Some(20u32)
    } else {
        None
    }
}

/// The level to warn about when `capacity` is seen after `last`: the level
/// that `capacity` has crossed, unless the capacity seen before was already
/// at or under that level.
pub open spec fn warning(last: Option<u32>, capacity: u32) -> Option<u32> {
    match crossed(capacity) {
        Some(level) => match last {
            Some(value) => if level >= value {
                None
            } else {
                Some(level)
            },
            None => Some(level),
        },
        None => None,
    }
}

/// The urgency of a warning about `level`.
pub open spec fn urgency_of(level: u32) -> Urgency {
    if level <= CRITICAL {
        Urgency::Critical
    } else {
        Urgency::Normal
    }
}

/// The headline of a warning about `level`.
pub open spec fn summary_of(level: u32) -> Seq<char> {
    "Battery under "@ + decimal(level as nat) + "%"@
}

/// The time left, as hours and minutes, for an estimation in seconds.
pub open spec fn body_of(estimation: u64) -> Seq<char> {
    let minutes = (estimation / 60) as nat;
    two_digits(minutes / 60) + ":"@ + two_digits(minutes % 60) + " remaining"@
}

/// The warning about `level` with `estimation` seconds left.
pub open spec fn notification_of(level: u32, estimation: u64) -> NotificationView {
    NotificationView {
        summary: summary_of(level),
        body: body_of(estimation),
        urgency: urgency_of(level),
    }
}

/// Remembers the capacity seen last, so that each level is warned about
/// once on the way down.
#[derive(Debug)]
pub struct BatteryNotifier {
    // None if not relevant
    capacity: Option<u32>,
}

impl View for BatteryNotifier {
    type V = Option<u32>;

    closed spec fn view(&self) -> Option<u32> {
        self.capacity
    }
}

fn compose(level: u32, estimation: u64) -> (notification: Notification)
    ensures
        notification@ == notification_of(level, estimation),
{
    let mut summary = String::from_str("Battery under ");
    let number = decimal_text(level as u64);
    summary.append(number.as_str());
    summary.append("%");
    let minutes: u64 = estimation / 60;
    let mut body = two_digits_text(minutes / 60);
    body.append(":");
    let rest = two_digits_text(minutes % 60);
    body.append(rest.as_str());
    body.append(" remaining");
    let urgency = if level <= CRITICAL {
        Urgency::Critical
    } else {
        Urgency::Normal
    };
    Notification { summary, body, urgency }
}

impl BatteryNotifier {
    /// A notifier that has seen no capacity yet.
    pub fn new() -> (notifier: Self)
        ensures
            notifier@ == None::<u32>,
    {
        BatteryNotifier { capacity: None }
    }

    /// Forgets the capacity seen last.
    pub fn reset(&mut self)
        ensures
            final(self)@ == None::<u32>,
    {
        self.capacity = None;
    }

    /// Takes in a capacity, in percent, with the estimated seconds left,
    /// and returns the warning that is due, if one is.
    pub fn update(&mut self, capacity: u32, estimation: u64) -> (notification: Option<
        Notification,
    >)
        ensures
            final(self)@ == Some(capacity),
            notification.is_some() == warning(old(self)@, capacity).is_some(),
            notification.is_some() ==> notification.unwrap()@ == notification_of(
                warning(old(self)@, capacity).unwrap(),
                estimation,
            ),
    {
        let mut notification: Option<Notification> = None;
        let mut i: usize = 0;
        while i < 5
            invariant
                i <= 5,
                notification.is_none(),
                self.capacity == old(self).capacity,
                forall|k: int| 0 <= k < i ==> LEVELS[k] < capacity,
            decreases 5 - i,
        {
            let level: u32 = LEVELS[i];
            if level >= capacity {
                let silent = match self.capacity {
                    Some(value) => level >= value,
                    None => false,
                };
                if !silent {
                    notification = Some(compose(level, estimation));
                }
                assert(crossed(capacity) == Some(level)) by {
                    assert(LEVELS[0] == 2 && LEVELS[1] == 5 && LEVELS[2] == 10 && LEVELS[3] == 15
                        && LEVELS[4] == 20);
                }
                self.capacity = Some(capacity);
                return notification;
            }
            i = i + 1;
        }
        assert(crossed(capacity).is_none()) by {
            assert(LEVELS[4] == 20);
        }
        self.capacity = Some(capacity);
        notification
    }
}

/// The level that a capacity has crossed is the least of the levels that
/// are not under it.
pub proof fn lemma_crossed_is_least(capacity: u32)
    ensures
        match crossed(capacity) {
            Some(level) => levels().contains(level) && level >= capacity && forall|i: int|
                0 <= i < levels().len() && levels()[i] >= capacity ==> level <= levels()[i],
            None => forall|i: int| 0 <= i < levels().len() ==> levels()[i] < capacity,
        },
{
    let all = levels();
    assert(all[0] == 2 && all[1] == 5 && all[2] == 10 && all[3] == 15 && all[4] == 20);
}

/// Seeing a capacity again, or one that is not lower than the last, gives
/// no warning.
pub proof fn lemma_not_lower_is_silent(last: u32, capacity: u32)
    requires
        last <= capacity,
    ensures
        warning(Some(last), capacity).is_none(),
{
}

/// With nothing remembered, every capacity at or under a level gives the
/// warning of the level it has crossed.
pub proof fn lemma_fresh_start_warns(capacity: u32)
    ensures
        warning(None, capacity) == crossed(capacity),
        capacity <= 20 ==> warning(None, capacity).is_some(),
{
}

/// A warning is critical exactly when its level is at most ten percent.
pub proof fn lemma_critical_levels(level: u32)
    ensures
        (urgency_of(level) == Urgency::Critical) == (level <= 10),
{
}

/// The levels warned about when `capacities` are seen one after the other,
/// first to last, after `last`.
pub open spec fn levels_warned(last: Option<u32>, capacities: Seq<u32>) -> Seq<u32>
    decreases capacities.len(),
{
    if capacities.len() == 0 {
        Seq::empty()
    } else {
        let rest = levels_warned(Some(capacities[0]), capacities.skip(1));
        match warning(last, capacities[0]) {
            Some(level) => seq![level] + rest,
            None => rest,
        }
    }
}

/// While the capacity does not rise, no level is warned about twice: each
/// warning is about a lower level than the one before it, and all are
/// about levels under the capacity seen before the first of them.
pub proof fn lemma_falling_capacity_warns_once(last: Option<u32>, capacities: Seq<u32>)
    requires
        forall|i: int, j: int|
            0 <= i < j < capacities.len() ==> capacities[i] >= capacities[j],
        last.is_some() ==> forall|i: int|
            0 <= i < capacities.len() ==> capacities[i] <= last.unwrap(),
    ensures
        forall|i: int, j: int|
            0 <= i < j < levels_warned(last, capacities).len() ==> levels_warned(
                last,
                capacities,
            )[i] > levels_warned(last, capacities)[j],
        last.is_some() ==> forall|i: int|
            0 <= i < levels_warned(last, capacities).len() ==> levels_warned(
                last,
                capacities,
            )[i] < last.unwrap(),
        forall|i: int|
            0 <= i < levels_warned(last, capacities).len() ==> levels().contains(
                levels_warned(last, capacities)[i],
            ),
    decreases capacities.len(),
{
    if capacities.len() > 0 {
        let first = capacities[0];
        let later = capacities.skip(1);
        let rest = levels_warned(Some(first), later);
        assert forall|i: int, j: int| 0 <= i < j < later.len() implies later[i] >= later[j] by {
            assert(later[i] == capacities[i + 1] && later[j] == capacities[j + 1]);
        }
        assert forall|i: int| 0 <= i < later.len() implies later[i] <= first by {
            assert(later[i] == capacities[i + 1]);
        }
        lemma_falling_capacity_warns_once(Some(first), later);
        lemma_crossed_is_least(first);
        let warned = levels_warned(last, capacities);
        match warning(last, first) {
            Some(level) => {
                assert(warned =~= seq![level] + rest);
                assert(level >= first);
                assert forall|i: int, j: int| 0 <= i < j < warned.len() implies warned[i]
                    > warned[j] by {
                    assert(warned[j] == rest[j - 1]);
                    if i > 0 {
                        assert(warned[i] == rest[i - 1]);
                    }
                }
                assert forall|i: int| 0 <= i < warned.len() implies levels().contains(
                    warned[i],
                ) by {
                    if i > 0 {
                        assert(warned[i] == rest[i - 1]);
                    }
                }
            },
            None => {
                assert(warned == rest);
            },
        }
    }
}

} // verus!
