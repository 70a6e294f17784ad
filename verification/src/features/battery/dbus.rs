//! The device watch protocol: which power devices are tracked, and what the
//! watcher asks of the bus when devices come and go.

use crate::communication::Message;
use crate::error::Error;
use crate::text::{
    clone_texts, occurs_at, same_text, starts_with, strip_leading, strip_leading_exec, texts,
};
use vstd::prelude::*;
use vstd::string::*;

verus! {

pub const INTERFACE_DBUS_PROPERTIES: &'static str = "org.freedesktop.DBus.Properties";

pub const INTERFACE_UPOWER: &'static str = "org.freedesktop.UPower";

pub const MEMBER_DEVICE_ADDED: &'static str = "DeviceAdded";

pub const MEMBER_ENUMERATE_DEVICES: &'static str = "EnumerateDevices";

pub const MEMBER_PROPERTIES_CHANGED: &'static str = "PropertiesChanged";

pub const PATH_BATTERY_DEVICES_PREFIX: &'static str = "/org/freedesktop/UPower/devices/battery_";

pub const PATH_DEVICES_PREFIX: &'static str = "/org/freedesktop/UPower/devices";

pub const PATH_UPOWER: &'static str = "/org/freedesktop/UPower";

/// Seconds to wait after a property change before the device is read again.
pub const SETTLE_SECONDS: u64 = 2;

/// What the watcher tells the feature that owns it.
#[derive(Clone, Debug, PartialEq, Eq)]
pub enum DeviceMessage {
    Added(String),
    Removed(String),
}

pub enum DeviceMessageView {
    Added(Seq<char>),
    Removed(Seq<char>),
}

impl View for DeviceMessage {
    type V = DeviceMessageView;

    open spec fn view(&self) -> DeviceMessageView {
        match *self {
            DeviceMessage::Added(name) => DeviceMessageView::Added(name@),
            DeviceMessage::Removed(name) => DeviceMessageView::Removed(name@),
        }
    }
}

/// A subscription on the bus: the signals of one interface on one path,
/// all of them or those of one member.
#[derive(Clone, Debug, PartialEq, Eq)]
pub struct Match {
    pub interface: String,
    pub member: Option<String>,
    pub path: String,
}

pub struct MatchView {
    pub interface: Seq<char>,
    pub member: Option<Seq<char>>,
    pub path: Seq<char>,
}

impl View for Match {
    type V = MatchView;

    open spec fn view(&self) -> MatchView {
        MatchView {
            interface: self.interface@,
            member: match self.member {
                Some(member) => Some(member@),
                None => None,
            },
            path: self.path@,
        }
    }
}

/// A method call on the bus.
#[derive(Clone, Debug, PartialEq, Eq)]
pub struct MethodCall {
    pub destination: String,
    pub path: String,
    pub interface: String,
    pub member: String,
}

/// A signal that arrived from the bus. `path` is the object path that the
/// signal carries as its value, if it carries one.
#[derive(Clone, Debug, PartialEq, Eq)]
pub struct Signal {
    pub interface: String,
    pub member: String,
    pub path: Option<String>,
}

pub struct SignalView {
    pub interface: Seq<char>,
    pub member: Seq<char>,
    pub path: Option<Seq<char>>,
}

impl View for Signal {
    type V = SignalView;

    open spec fn view(&self) -> SignalView {
        SignalView {
            interface: self.interface@,
            member: self.member@,
            path: match self.path {
                Some(path) => Some(path@),
                None => None,
            },
        }
    }
}

/// One thing the watcher asks of its surroundings, in the order given.
#[derive(Clone, Debug, PartialEq, Eq)]
pub enum BusAction {
    /// Start receiving the signals of this match.
    Subscribe(Match),
    /// Stop receiving the signals of this match.
    Unsubscribe(Match),
    /// Hand this to the feature that owns the watcher.
    Forward(DeviceMessage),
    /// Wait this many seconds.
    Sleep(u64),
    /// Put this message on the queue.
    Post(Message),
}

pub enum BusActionView {
    Subscribe(MatchView),
    Unsubscribe(MatchView),
    Forward(DeviceMessageView),
    Sleep(u64),
    Post(Message),
}

impl View for BusAction {
    type V = BusActionView;

    open spec fn view(&self) -> BusActionView {
        match *self {
            BusAction::Subscribe(m) => BusActionView::Subscribe(m@),
            BusAction::Unsubscribe(m) => BusActionView::Unsubscribe(m@),
            BusAction::Forward(m) => BusActionView::Forward(m@),
            BusAction::Sleep(seconds) => BusActionView::Sleep(seconds),
            BusAction::Post(message) => BusActionView::Post(message),
        }
    }
}

/// The views of a list of actions.
pub open spec fn action_views(actions: Seq<BusAction>) -> Seq<BusActionView> {
    actions.map_values(|a: BusAction| a@)
}

/// The bare device name in a path: the path without the battery prefix.
pub open spec fn device_name(path: Seq<char>) -> Seq<char> {
    strip_leading(path, PATH_BATTERY_DEVICES_PREFIX@)
}

/// A path names a battery when it lies under the battery prefix and what
/// follows the prefix is not itself a device path.
pub open spec fn is_battery(path: Seq<char>) -> bool {
    &&& occurs_at(path, 0, PATH_BATTERY_DEVICES_PREFIX@)
    &&& !occurs_at(device_name(path), 0, PATH_DEVICES_PREFIX@)
}

/// The subscription to the property changes of one device.
pub open spec fn property_match(path: Seq<char>) -> MatchView {
    MatchView {
        interface: INTERFACE_DBUS_PROPERTIES@,
        member: Some(MEMBER_PROPERTIES_CHANGED@),
        path,
    }
}

/// The subscription to every signal of the power interface.
pub open spec fn upower_match() -> MatchView {
    MatchView { interface: INTERFACE_UPOWER@, member: None, path: PATH_UPOWER@ }
}

/// Whether adding `path` changes anything.
pub open spec fn accepts(devices: Seq<Seq<char>>, path: Seq<char>) -> bool {
    is_battery(path) && !devices.contains(path)
}

/// The tracked paths after `path` was added.
pub open spec fn devices_after_add(devices: Seq<Seq<char>>, path: Seq<char>) -> Seq<Seq<char>> {
    if accepts(devices, path) {
        devices.push(path)
    } else {
        devices
    }
}

/// What adding `path` asks for.
pub open spec fn actions_of_add(devices: Seq<Seq<char>>, path: Seq<char>) -> Seq<BusActionView> {
    if accepts(devices, path) {
        seq![
            BusActionView::Subscribe(property_match(path)),
            BusActionView::Forward(DeviceMessageView::Added(device_name(path))),
        ]
    } else {
        Seq::empty()
    }
}

/// The tracked paths after `path` was removed.
pub open spec fn devices_after_remove(devices: Seq<Seq<char>>, path: Seq<char>) -> Seq<
    Seq<char>,
> {
    if devices.contains(path) {
        devices.remove(devices.index_of(path))
    } else {
        devices
    }
}

/// What removing `path` asks for.
pub open spec fn actions_of_remove(devices: Seq<Seq<char>>, path: Seq<char>) -> Seq<
    BusActionView,
> {
    if devices.contains(path) {
        seq![
            BusActionView::Unsubscribe(property_match(path)),
            BusActionView::Forward(DeviceMessageView::Removed(device_name(path))),
        ]
    } else {
        Seq::empty()
    }
}

/// The tracked paths after each of `listed` was added, first to last.
pub open spec fn devices_after_all(devices: Seq<Seq<char>>, listed: Seq<Seq<char>>) -> Seq<
    Seq<char>,
>
    decreases listed.len(),
{
    if listed.len() == 0 {
        devices
    } else {
        devices_after_add(devices_after_all(devices, listed.drop_last()), listed.last())
    }
}

/// What adding each of `listed`, first to last, asks for.
pub open spec fn actions_of_all(devices: Seq<Seq<char>>, listed: Seq<Seq<char>>) -> Seq<
    BusActionView,
>
    decreases listed.len(),
{
    if listed.len() == 0 {
        Seq::empty()
    } else {
        actions_of_all(devices, listed.drop_last()) + actions_of_add(
            devices_after_all(devices, listed.drop_last()),
            listed.last(),
        )
    }
}

/// Whether a signal cannot be handled: it is one of the power interface and
/// names no device.
pub open spec fn signal_is_broken(signal: SignalView) -> bool {
    signal.interface == INTERFACE_UPOWER@ && signal.path.is_none()
}

/// The tracked paths after a signal was handled.
pub open spec fn devices_after_signal(devices: Seq<Seq<char>>, signal: SignalView) -> Seq<
    Seq<char>,
> {
    if signal.interface == INTERFACE_UPOWER@ && signal.path.is_some() {
        if signal.member == MEMBER_DEVICE_ADDED@ {
            devices_after_add(devices, signal.path.unwrap())
        } else {
            devices_after_remove(devices, signal.path.unwrap())
        }
    } else {
        devices
    }
}

/// What handling a signal asks for, in a watcher for the feature `id`.
pub open spec fn actions_of_signal(id: usize, devices: Seq<Seq<char>>, signal: SignalView) -> Seq<
    BusActionView,
> {
    if signal.interface == INTERFACE_UPOWER@ {
        if signal.path.is_none() {
            Seq::empty()
        } else if signal.member == MEMBER_DEVICE_ADDED@ {
            actions_of_add(devices, signal.path.unwrap()).push(
                BusActionView::Post(Message::FeatureUpdate(id)),
            )
        } else {
            actions_of_remove(devices, signal.path.unwrap()).push(
                BusActionView::Post(Message::FeatureUpdate(id)),
            )
        }
    } else if signal.member == MEMBER_PROPERTIES_CHANGED@ {
        seq![
            BusActionView::Sleep(SETTLE_SECONDS),
            BusActionView::Post(Message::FeatureUpdate(id)),
        ]
    } else {
        Seq::empty()
    }
}

/// The device paths for which a property subscription is active. No path
/// occurs twice, and every path names a battery.
pub struct DeviceSet {
    paths: Vec<String>,
}

impl View for DeviceSet {
    type V = Seq<Seq<char>>;

    closed spec fn view(&self) -> Seq<Seq<char>> {
        texts(self.paths@)
    }
}

impl DeviceSet {
    /// The invariant of the set.
    pub open spec fn wf(&self) -> bool {
        &&& self@.no_duplicates()
        &&& forall|i: int| 0 <= i < self@.len() ==> is_battery(#[trigger] self@[i])
    }

    /// The empty set.
    pub fn new() -> (devices: Self)
        ensures
            devices@ == Seq::<Seq<char>>::empty(),
            devices.wf(),
    {
        let devices = DeviceSet { paths: Vec::new() };
        assert(devices@ =~= Seq::<Seq<char>>::empty());
        devices
    }

    /// Number of tracked devices.
    pub fn len(&self) -> (n: usize)
        ensures
            n == self@.len(),
    {
        self.paths.len()
    }

    /// Where `path` stands in the set, if it is tracked.
    pub fn position(&self, path: &str) -> (found: Option<usize>)
        ensures
            found.is_some() == self@.contains(path@),
            found.is_some() ==> found.unwrap() < self@.len() && self@[found.unwrap() as int]
                == path@,
    {
        let mut i: usize = 0;
        while i < self.paths.len()
            invariant
                i <= self.paths@.len(),
                forall|k: int| 0 <= k < i ==> self@[k] != path@,
            decreases self.paths@.len() - i,
        {
            if same_text(self.paths[i].as_str(), path) {
                assert(self@[i as int] == path@);
                return Some(i);
            }
            i = i + 1;
        }
        None
    }

    /// Whether `path` is tracked.
    pub fn contains(&self, path: &str) -> (known: bool)
        ensures
            known == self@.contains(path@),
    {
        self.position(path).is_some()
    }

    /// The tracked paths, oldest first.
    pub fn paths(&self) -> (paths: Vec<String>)
        ensures
            texts(paths@) == self@,
    {
        clone_texts(&self.paths)
    }
}

/// Watches the power devices on the bus for the feature with index `id`.
#[derive(Clone, Copy, Debug, PartialEq, Eq, Structural)]
pub struct DbusWatcher {
    pub id: usize,
}

fn property_match_of(path: &str) -> (m: Match)
    ensures
        m@ == property_match(path@),
{
    Match {
        interface: String::from_str(INTERFACE_DBUS_PROPERTIES),
        member: Some(String::from_str(MEMBER_PROPERTIES_CHANGED)),
        path: String::from_str(path),
    }
}

impl DbusWatcher {
    /// A watcher for the feature with index `id`.
    pub fn new(id: usize) -> (watcher: Self)
        ensures
            watcher.id == id,
    {
        DbusWatcher { id }
    }

    /// The first step: the subscription to the power interface, which is
    /// made before the devices are listed, so that no change is missed.
    pub fn start(&self) -> (actions: Vec<BusAction>)
        ensures
            action_views(actions@) == seq![BusActionView::Subscribe(upower_match())],
    {
        let mut actions: Vec<BusAction> = Vec::new();
        actions.push(
            BusAction::Subscribe(
                Match {
                    interface: String::from_str(INTERFACE_UPOWER),
                    member: None,
                    path: String::from_str(PATH_UPOWER),
                },
            ),
        );
        assert(action_views(actions@) =~= seq![BusActionView::Subscribe(upower_match())]);
        actions
    }

    /// The call that lists the devices the bus knows now.
    pub fn get_current_devices(&self) -> (call: MethodCall)
        ensures
            call.destination@ == INTERFACE_UPOWER@,
            call.path@ == PATH_UPOWER@,
            call.interface@ == INTERFACE_UPOWER@,
            call.member@ == MEMBER_ENUMERATE_DEVICES@,
    {
        MethodCall {
            destination: String::from_str(INTERFACE_UPOWER),
            path: String::from_str(PATH_UPOWER),
            interface: String::from_str(INTERFACE_UPOWER),
            member: String::from_str(MEMBER_ENUMERATE_DEVICES),
        }
    }

    /// The bare name of the device at `path`.
    pub fn get_device_name(&self, path: &str) -> (name: String)
        ensures
            name@ == device_name(path@),
    {
        strip_leading_exec(path, PATH_BATTERY_DEVICES_PREFIX)
    }

    /// Tracks the device at `path`, unless it is no battery or is tracked
    /// already.
    pub fn add_device(&self, devices: &mut DeviceSet, path: &str) -> (actions: Vec<BusAction>)
        requires
            old(devices).wf(),
        ensures
            final(devices).wf(),
            final(devices)@ == devices_after_add(old(devices)@, path@),
            action_views(actions@) == actions_of_add(old(devices)@, path@),
    {
        let mut actions: Vec<BusAction> = Vec::new();
        let name = self.get_device_name(path);
        if !starts_with(path, PATH_BATTERY_DEVICES_PREFIX) || starts_with(
            name.as_str(),
            PATH_DEVICES_PREFIX,
        ) || devices.contains(path) {
            assert(action_views(actions@) =~= Seq::<BusActionView>::empty());
            return actions;
        }
        actions.push(BusAction::Subscribe(property_match_of(path)));
        actions.push(BusAction::Forward(DeviceMessage::Added(name)));
        devices.paths.push(String::from_str(path));
        proof {
            assert(devices@ =~= old(devices)@.push(path@));
            assert(action_views(actions@) =~= actions_of_add(old(devices)@, path@));
        }
        actions
    }

    /// Takes in the devices that the bus listed, first to last, and then
    /// posts one update of the feature: listing may have taken long enough
    /// for a first rendering to have missed a device.
    pub fn enumerate(&self, devices: &mut DeviceSet, listed: &Vec<String>) -> (actions: Vec<
        BusAction,
    >)
        requires
            old(devices).wf(),
        ensures
            final(devices).wf(),
            final(devices)@ == devices_after_all(old(devices)@, texts(listed@)),
            action_views(actions@) == actions_of_all(old(devices)@, texts(listed@)).push(
                BusActionView::Post(Message::FeatureUpdate(self.id)),
            ),
    {
        let mut actions: Vec<BusAction> = Vec::new();
        let mut i: usize = 0;
        assert(action_views(actions@) =~= Seq::<BusActionView>::empty());
        while i < listed.len()
            invariant
                i <= listed@.len(),
                devices.wf(),
                devices@ == devices_after_all(old(devices)@, texts(listed@).take(i as int)),
                action_views(actions@) == actions_of_all(
                    old(devices)@,
                    texts(listed@).take(i as int),
                ),
            decreases listed@.len() - i,
        {
            let ghost done = action_views(actions@);
            let mut more = self.add_device(devices, listed[i].as_str());
            let ghost added = action_views(more@);
            actions.append(&mut more);
            proof {
                let all = texts(listed@);
                assert(all.take(i + 1).drop_last() =~= all.take(i as int));
                assert(all.take(i + 1).last() == listed@[i as int]@);
                assert(action_views(actions@) =~= done + added);
            }
            i = i + 1;
        }
        assert(texts(listed@).take(i as int) =~= texts(listed@));
        let ghost done = action_views(actions@);
        actions.push(BusAction::Post(Message::FeatureUpdate(self.id)));
        assert(action_views(actions@) =~= done.push(
            BusActionView::Post(Message::FeatureUpdate(self.id)),
        ));
        actions
    }

    /// Handles one signal of the listen loop. A signal of the power
    /// interface adds the device it names when its member says so and
    /// removes it otherwise, and posts an update; a property change waits
    /// for the device's files to settle and posts an update; any other
    /// signal is passed over.
    pub fn handle_signal(&self, devices: &mut DeviceSet, signal: &Signal) -> (result: Result<
        Vec<BusAction>,
        Error,
    >)
        requires
            old(devices).wf(),
        ensures
            final(devices).wf(),
            final(devices)@ == devices_after_signal(old(devices)@, signal@),
            signal_is_broken(signal@) ==> result == Err::<Vec<BusAction>, Error>(
                Error::MissingDevicePath,
            ),
            !signal_is_broken(signal@) ==> result.is_ok() && action_views(result.unwrap()@)
                == actions_of_signal(self.id, old(devices)@, signal@),
    {
        if same_text(signal.interface.as_str(), INTERFACE_UPOWER) {
            match &signal.path {
                None => Err(Error::MissingDevicePath),
                Some(path) => {
                    let mut actions = if same_text(signal.member.as_str(), MEMBER_DEVICE_ADDED) {
                        self.add_device(devices, path.as_str())
                    } else {
                        self.remove_device(devices, path.as_str())
                    };
                    let ghost done = action_views(actions@);
                    actions.push(BusAction::Post(Message::FeatureUpdate(self.id)));
                    assert(action_views(actions@) =~= done.push(
                        BusActionView::Post(Message::FeatureUpdate(self.id)),
                    ));
                    Ok(actions)
                },
            }
        } else {
            let mut actions: Vec<BusAction> = Vec::new();
            if same_text(signal.member.as_str(), MEMBER_PROPERTIES_CHANGED) {
                actions.push(BusAction::Sleep(SETTLE_SECONDS));
                actions.push(BusAction::Post(Message::FeatureUpdate(self.id)));
            }
            assert(action_views(actions@) =~= actions_of_signal(
                self.id,
                old(devices)@,
                signal@,
            ));
            Ok(actions)
        }
    }

    /// Stops tracking the device at `path`, if it is tracked.
    pub fn remove_device(&self, devices: &mut DeviceSet, path: &str) -> (actions: Vec<
        BusAction,
    >)
        requires
            old(devices).wf(),
        ensures
            final(devices).wf(),
            final(devices)@ == devices_after_remove(old(devices)@, path@),
            action_views(actions@) == actions_of_remove(old(devices)@, path@),
    {
        let mut actions: Vec<BusAction> = Vec::new();
        let found = devices.position(path);
        match found {
            None => {
                assert(action_views(actions@) =~= Seq::<BusActionView>::empty());
                actions
            },
            Some(index) => {
                let name = self.get_device_name(path);
                actions.push(BusAction::Unsubscribe(property_match_of(path)));
                actions.push(BusAction::Forward(DeviceMessage::Removed(name)));
                devices.paths.remove(index);
                proof {
                    let before = old(devices)@;
                    assert(before.index_of(path@) == index as int);
                    assert(devices@ =~= before.remove(index as int));
                    assert(action_views(actions@) =~= actions_of_remove(before, path@));
                }
                actions
            },
        }
    }
}

/// Number of `Added` messages that a list of actions forwards.
pub open spec fn added_count(actions: Seq<BusActionView>) -> nat
    decreases actions.len(),
{
    if actions.len() == 0 {
        0
    } else {
        let rest = added_count(actions.drop_last());
        match actions.last() {
            BusActionView::Forward(DeviceMessageView::Added(_)) => rest + 1,
            _ => rest,
        }
    }
}

/// The paths with an active property subscription after `actions` were
/// carried out, where those in `paths` had one before.
pub open spec fn subscribed_after(paths: Set<Seq<char>>, actions: Seq<BusActionView>) -> Set<
    Seq<char>,
>
    decreases actions.len(),
{
    if actions.len() == 0 {
        paths
    } else {
        let before = subscribed_after(paths, actions.drop_last());
        match actions.last() {
            BusActionView::Subscribe(m) => if m == property_match(m.path) {
                before.insert(m.path)
            } else {
                before
            },
            BusActionView::Unsubscribe(m) => if m == property_match(m.path) {
                before.remove(m.path)
            } else {
                before
            },
            _ => before,
        }
    }
}

/// Adding one path twice in a row: the second time nothing is asked for
/// and the set keeps its size. Where the path is an untracked battery, the
/// two together forward exactly one `Added`; otherwise none.
pub proof fn lemma_add_twice(devices: Seq<Seq<char>>, path: Seq<char>)
    ensures
        ({
            let once = devices_after_add(devices, path);
            let twice = devices_after_add(once, path);
            let asked = actions_of_add(devices, path) + actions_of_add(once, path);
            &&& twice == once
            &&& twice.len() == once.len()
            &&& actions_of_add(once, path) == Seq::<BusActionView>::empty()
            &&& added_count(asked) == if accepts(devices, path) {
                1nat
            } else {
                0nat
            }
        }),
{
    let once = devices_after_add(devices, path);
    let first = actions_of_add(devices, path);
    if accepts(devices, path) {
        assert(once[devices.len() as int] == path);
    }
    assert(!accepts(once, path));
    assert(first + Seq::<BusActionView>::empty() =~= first);
    if accepts(devices, path) {
        assert(first.drop_last() =~= seq![BusActionView::Subscribe(property_match(path))]);
        assert(first.drop_last().drop_last() =~= Seq::<BusActionView>::empty());
        reveal_with_fuel(added_count, 3);
    }
}

/// Removing a path that is not tracked asks for nothing and leaves the set
/// as it was.
pub proof fn lemma_remove_untracked(devices: Seq<Seq<char>>, path: Seq<char>)
    requires
        !devices.contains(path),
    ensures
        devices_after_remove(devices, path) == devices,
        actions_of_remove(devices, path) == Seq::<BusActionView>::empty(),
{
}

/// A path outside the battery namespace is never taken into the set:
/// adding it changes nothing and asks for nothing, and it is not tracked
/// afterwards unless it was before.
pub proof fn lemma_add_outside_namespace(devices: Seq<Seq<char>>, path: Seq<char>)
    requires
        !occurs_at(path, 0, PATH_BATTERY_DEVICES_PREFIX@),
    ensures
        devices_after_add(devices, path) == devices,
        actions_of_add(devices, path) == Seq::<BusActionView>::empty(),
{
}

/// Removing a tracked path from a set without duplicates leaves exactly
/// the other paths.
pub proof fn lemma_remove_drops_one(devices: Seq<Seq<char>>, path: Seq<char>)
    requires
        devices.no_duplicates(),
    ensures
        devices_after_remove(devices, path).to_set() == devices.to_set().remove(path),
        devices_after_remove(devices, path).no_duplicates(),
        devices.contains(path) ==> devices_after_remove(devices, path).len() + 1
            == devices.len(),
{
    let after = devices_after_remove(devices, path);
    if devices.contains(path) {
        let at = devices.index_of(path);
        assert forall|p: Seq<char>| after.to_set().contains(p) <==> devices.to_set().remove(
            path,
        ).contains(p) by {
            if after.to_set().contains(p) {
                let k = choose|k: int| 0 <= k < after.len() && after[k] == p;
                if k < at {
                    assert(devices[k] == p);
                } else {
                    assert(devices[k + 1] == p);
                }
            }
            if devices.to_set().remove(path).contains(p) {
                let k = choose|k: int| 0 <= k < devices.len() && devices[k] == p;
                if k < at {
                    assert(after[k] == p);
                } else {
                    assert(after[k - 1] == p);
                }
            }
        }
        assert(after.to_set() =~= devices.to_set().remove(path));
    } else {
        assert(devices.to_set() =~= devices.to_set().remove(path));
    }
}

/// Carrying out one list of actions and then another is carrying out the
/// two as one list.
pub proof fn lemma_subscribed_after_both(
    paths: Set<Seq<char>>,
    first: Seq<BusActionView>,
    second: Seq<BusActionView>,
)
    ensures
        subscribed_after(paths, first + second) == subscribed_after(
            subscribed_after(paths, first),
            second,
        ),
    decreases second.len(),
{
    if second.len() == 0 {
        assert(first + second =~= first);
    } else {
        assert((first + second).drop_last() =~= first + second.drop_last());
        assert((first + second).last() == second.last());
        lemma_subscribed_after_both(paths, first, second.drop_last());
    }
}

/// Posting a message changes no subscription.
pub proof fn lemma_post_keeps_subscriptions(
    paths: Set<Seq<char>>,
    actions: Seq<BusActionView>,
    message: Message,
)
    ensures
        subscribed_after(paths, actions.push(BusActionView::Post(message))) == subscribed_after(
            paths,
            actions,
        ),
{
    assert(actions.push(BusActionView::Post(message)).drop_last() =~= actions);
}

/// The set is the set of active property subscriptions: where that holds
/// before a path is added, it holds after the actions that adding it asks
/// for were carried out. And the set still holds no path twice.
pub proof fn lemma_add_keeps_subscriptions(devices: Seq<Seq<char>>, path: Seq<char>)
    requires
        devices.no_duplicates(),
    ensures
        subscribed_after(devices.to_set(), actions_of_add(devices, path)) == devices_after_add(
            devices,
            path,
        ).to_set(),
        devices_after_add(devices, path).no_duplicates(),
{
    let asked = actions_of_add(devices, path);
    let paths = devices.to_set();
    let after = devices.push(path);
    reveal_with_fuel(subscribed_after, 3);
    if accepts(devices, path) {
        assert(asked.drop_last() =~= seq![BusActionView::Subscribe(property_match(path))]);
        assert(asked.drop_last().drop_last() =~= Seq::<BusActionView>::empty());
        assert forall|p: Seq<char>| after.to_set().contains(p) <==> paths.insert(path).contains(
            p,
        ) by {
            if after.to_set().contains(p) {
                let k = choose|k: int| 0 <= k < after.len() && after[k] == p;
                if k < devices.len() {
                    assert(devices[k] == p);
                }
            }
            if paths.insert(path).contains(p) {
                if p == path {
                    assert(after[devices.len() as int] == p);
                } else {
                    let k = choose|k: int| 0 <= k < devices.len() && devices[k] == p;
                    assert(after[k] == p);
                }
            }
        }
        assert(after.to_set() =~= paths.insert(path));
    }
}

/// The same of removing a path.
pub proof fn lemma_remove_keeps_subscriptions(devices: Seq<Seq<char>>, path: Seq<char>)
    requires
        devices.no_duplicates(),
    ensures
        subscribed_after(devices.to_set(), actions_of_remove(devices, path))
            == devices_after_remove(devices, path).to_set(),
        devices_after_remove(devices, path).no_duplicates(),
{
    let asked = actions_of_remove(devices, path);
    reveal_with_fuel(subscribed_after, 3);
    lemma_remove_drops_one(devices, path);
    if devices.contains(path) {
        assert(asked.drop_last() =~= seq![BusActionView::Unsubscribe(property_match(path))]);
        assert(asked.drop_last().drop_last() =~= Seq::<BusActionView>::empty());
    }
}

/// The same of listing the devices at the start.
pub proof fn lemma_enumeration_keeps_subscriptions(
    id: usize,
    devices: Seq<Seq<char>>,
    listed: Seq<Seq<char>>,
)
    requires
        devices.no_duplicates(),
    ensures
        subscribed_after(
            devices.to_set(),
            actions_of_all(devices, listed).push(BusActionView::Post(Message::FeatureUpdate(id))),
        ) == devices_after_all(devices, listed).to_set(),
        devices_after_all(devices, listed).no_duplicates(),
    decreases listed.len(),
{
    let message = Message::FeatureUpdate(id);
    lemma_post_keeps_subscriptions(devices.to_set(), actions_of_all(devices, listed), message);
    if listed.len() > 0 {
        let before = actions_of_all(devices, listed.drop_last());
        let reached = devices_after_all(devices, listed.drop_last());
        lemma_enumeration_keeps_subscriptions(id, devices, listed.drop_last());
        lemma_post_keeps_subscriptions(devices.to_set(), before, message);
        lemma_add_keeps_subscriptions(reached, listed.last());
        lemma_subscribed_after_both(
            devices.to_set(),
            before,
            actions_of_add(reached, listed.last()),
        );
    }
}

/// The same of handling a signal in the listen loop.
pub proof fn lemma_signal_keeps_subscriptions(
    id: usize,
    devices: Seq<Seq<char>>,
    signal: SignalView,
)
    requires
        devices.no_duplicates(),
    ensures
        subscribed_after(devices.to_set(), actions_of_signal(id, devices, signal))
            == devices_after_signal(devices, signal).to_set(),
        devices_after_signal(devices, signal).no_duplicates(),
{
    let actions = actions_of_signal(id, devices, signal);
    let message = Message::FeatureUpdate(id);
    if signal.interface == INTERFACE_UPOWER@ && signal.path.is_some() {
        let path = signal.path.unwrap();
        if signal.member == MEMBER_DEVICE_ADDED@ {
            lemma_post_keeps_subscriptions(
                devices.to_set(),
                actions_of_add(devices, path),
                message,
            );
            lemma_add_keeps_subscriptions(devices, path);
        } else {
            lemma_post_keeps_subscriptions(
                devices.to_set(),
                actions_of_remove(devices, path),
                message,
            );
            lemma_remove_keeps_subscriptions(devices, path);
        }
    } else if signal.interface != INTERFACE_UPOWER@ && signal.member
        == MEMBER_PROPERTIES_CHANGED@ {
        reveal_with_fuel(subscribed_after, 3);
        assert(actions.drop_last() =~= seq![BusActionView::Sleep(SETTLE_SECONDS)]);
        assert(actions.drop_last().drop_last() =~= Seq::<BusActionView>::empty());
    }
}

} // verus!
