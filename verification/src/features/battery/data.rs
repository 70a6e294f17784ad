//! What the battery feature knows on the consumer's side: the devices that
//! the watcher reported, and the capacity seen last.

use super::dbus::{DeviceMessage, DeviceMessageView};
use super::notifier::{notification_of, warning, BatteryNotifier, Notification};
use crate::search::{first_where, lemma_first_where};
use crate::text::{same_text, texts};
use vstd::prelude::*;
use vstd::string::*;

verus! {

/// The device names after a message of the watcher was taken in: an added
/// name is put behind the others, a removed name is taken out where it
/// stands first.
pub open spec fn names_after(names: Seq<Seq<char>>, message: DeviceMessageView) -> Seq<
    Seq<char>,
> {
    match message {
        DeviceMessageView::Added(name) => names.push(name),
        DeviceMessageView::Removed(name) => {
            let at = first_where(names, |n: Seq<char>| n == name);
            if at < names.len() {
                names.remove(at)
            } else {
                names
            }
        },
    }
}

/// The capacity remembered after a message of the watcher was taken in:
/// none once no device is left.
pub open spec fn last_after(
    names: Seq<Seq<char>>,
    last: Option<u32>,
    message: DeviceMessageView,
) -> Option<u32> {
    if names_after(names, message).len() == 0 {
        None
    } else {
        last
    }
}

/// The devices that exist and the warnings given about them.
#[derive(Debug)]
pub struct Data {
    names: Vec<String>,
    notifier: BatteryNotifier,
}

pub struct DataView {
    pub names: Seq<Seq<char>>,
    pub last: Option<u32>,
}

impl View for Data {
    type V = DataView;

    closed spec fn view(&self) -> DataView {
        DataView { names: texts(self.names@), last: self.notifier@ }
    }
}

impl Data {
    /// No device, and no capacity seen.
    pub fn new() -> (data: Self)
        ensures
            data@ == (DataView { names: Seq::empty(), last: None }),
    {
        let data = Data { names: Vec::new(), notifier: BatteryNotifier::new() };
        assert(texts(data.names@) =~= Seq::<Seq<char>>::empty());
        data
    }

    /// Whether there is any battery at all.
    pub fn has_battery(&self) -> (any: bool)
        ensures
            any == (self@.names.len() > 0),
    {
        self.names.len() > 0
    }

    /// The names of the devices, in the order in which they appeared.
    pub fn names(&self) -> (names: &Vec<String>)
        ensures
            texts(names@) == self@.names,
    {
        &self.names
    }

    /// Takes in a message of the watcher. Once the last device is gone,
    /// the capacity seen last is forgotten.
    pub fn handle(&mut self, message: &DeviceMessage)
        ensures
            final(self)@ == (DataView {
                names: names_after(old(self)@.names, message@),
                last: last_after(old(self)@.names, old(self)@.last, message@),
            }),
    {
        match message {
            DeviceMessage::Added(name) => {
                self.names.push(name.clone());
                assert(texts(self.names@) =~= old(self)@.names.push(name@));
            },
            DeviceMessage::Removed(name) => {
                let ghost before = texts(self.names@);
                let mut i: usize = 0;
                let mut found = false;
                while i < self.names.len() && !found
                    invariant
                        i <= self.names@.len(),
                        self.names@ == old(self).names@,
                        before == texts(self.names@),
                        forall|k: int| 0 <= k < i ==> before[k] != name@,
                        found ==> i < self.names@.len() && before[i as int] == name@,
                    decreases
                            self.names@.len() - i - if found {
                                1int
                            } else {
                                0int
                            },
                {
                    if same_text(self.names[i].as_str(), name.as_str()) {
                        found = true;
                    } else {
                        i = i + 1;
                    }
                }
                proof {
                    let wanted = name@;
                    lemma_first_where(before, |n: Seq<char>| n == wanted, i as int);
                }
                if found {
                    self.names.remove(i);
                    assert(texts(self.names@) =~= before.remove(i as int));
                }
            },
        }
        if self.names.len() == 0 {
            self.notifier.reset();
        }
    }

    /// Takes in a capacity, in percent, with the estimated seconds left,
    /// and returns the warning that is due. Without a battery there is
    /// nothing to warn about, and nothing is remembered.
    pub fn observe(&mut self, capacity: u32, estimation: u64) -> (notification: Option<
        Notification,
    >)
        ensures
            final(self)@.names == old(self)@.names,
            old(self)@.names.len() == 0 ==> notification.is_none() && final(self)@.last
                == None::<u32>,
            old(self)@.names.len() > 0 ==> {
                &&& final(self)@.last == Some(capacity)
                &&& notification.is_some() == warning(old(self)@.last, capacity).is_some()
                &&& notification.is_some() ==> notification.unwrap()@ == notification_of(
                    warning(old(self)@.last, capacity).unwrap(),
                    estimation,
                )
            },
    {
        if self.names.len() == 0 {
            self.notifier.reset();
            None
        } else {
            self.notifier.update(capacity, estimation)
        }
    }
}

} // verus!
