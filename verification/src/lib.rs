//! Verified core of a desktop status line: features signal changes over one
//! message queue, and a single consumer recomposes the rendered line.

pub mod communication;
pub mod error;
pub mod feature;
pub mod features;
pub mod search;
pub mod settings;
pub mod status_bar;
pub mod text;

use crate::communication::{Channel, Message};
use crate::error::{Error, ErrorView};
use crate::feature::{Composer, ComposerView, Notifier};
use crate::features::audio::ConfigEntryView;
use crate::features::{create_feature, data_of, is_feature, notifier_of};
use crate::search::{first_where, lemma_first_where};
use crate::settings::{General, Settings};
use crate::status_bar::{
    accepted, join, reading, targets, texts_after, texts_of, Redraw, RedrawView, StatusBar,
};
use crate::text::{same_text, texts};
use vstd::prelude::*;

verus! {

/// Why a configured order cannot be started, if it cannot: it is empty, it
/// names a feature twice, or it names a feature that does not exist (the
/// first such name is reported).
pub open spec fn startup_error(order: Seq<Seq<char>>) -> Option<ErrorView> {
    let unknown = first_where(order, |name: Seq<char>| !is_feature(name));
    if order.len() == 0 {
        Some(ErrorView::NoFeatures)
    } else if !order.no_duplicates() {
        Some(ErrorView::DuplicateFeature)
    } else if unknown < order.len() {
        Some(ErrorView::UnknownFeature(order[unknown]))
    } else {
        None
    }
}

/// The notifiers of the features of an order, one for each, each with the
/// index of its feature.
pub open spec fn notifiers_of(order: Seq<Seq<char>>) -> Seq<Notifier> {
    Seq::new(order.len(), |i: int| notifier_of(i as usize, order[i]))
}

/// The features of an order once their notifiers were handed out: no text
/// yet.
pub open spec fn features_of(order: Seq<Seq<char>>, audio: ConfigEntryView) -> Seq<
    ComposerView,
> {
    Seq::new(
        order.len(),
        |i: int|
            ComposerView {
                name: order[i],
                notifier: None,
                data: data_of(order[i], audio),
                text: Seq::empty(),
            },
    )
}

/// As many empty texts as there are features.
pub open spec fn blank(count: nat) -> Seq<Seq<char>> {
    Seq::new(count, |i: int| Seq::empty())
}

/// Whether the consumer stops at a message: at the order to stop, and at a
/// message for a feature that it does not have.
pub open spec fn stops(count: nat, message: Message) -> bool {
    message == Message::Kill || !accepted(count, message)
}

/// The texts after each of `messages` was served, first to last.
pub open spec fn texts_after_all(
    parts: Seq<Seq<char>>,
    messages: Seq<Message>,
    observations: Seq<Seq<char>>,
) -> Seq<Seq<char>>
    decreases messages.len(),
{
    if messages.len() == 0 {
        parts
    } else {
        texts_after(
            texts_after_all(parts, messages.drop_last(), observations),
            messages.last(),
            observations,
        )
    }
}

/// What serving the message at `at` leads to, where the messages before it
/// were served too.
pub open spec fn redraw_at(
    parts: Seq<Seq<char>>,
    inbox: Seq<Message>,
    at: int,
    observations: Seq<Seq<char>>,
    separator: Seq<char>,
) -> RedrawView {
    RedrawView {
        updated: targets(parts.len(), inbox[at]),
        line: join(texts_after_all(parts, inbox.take(at + 1), observations), separator),
    }
}

/// What is left of the queue when the consumer stopped at `stop`: the
/// messages behind that position.
pub open spec fn left_behind(inbox: Seq<Message>, stop: int) -> Seq<Message> {
    if 0 <= stop < inbox.len() {
        inbox.skip(stop + 1)
    } else {
        Seq::empty()
    }
}

/// The features of a line and their notifiers, which are to run on one
/// thread each.
#[derive(Clone, Debug, PartialEq, Eq)]
pub struct Startup {
    pub features: Vec<Composer>,
    pub notifiers: Vec<Notifier>,
}

/// What became of a queue of messages.
#[derive(Clone, Debug, PartialEq, Eq)]
pub struct Served {
    /// One entry for each message served, in the order of the queue.
    pub redraws: Vec<Redraw>,
    /// Whether the consumer stopped because it was told to, and not
    /// because the queue ran empty.
    pub killed: bool,
}

/// How a run of the line ended.
#[derive(Clone, Debug, PartialEq, Eq)]
pub struct Outcome {
    /// The notifiers that were started, one for each feature.
    pub notifiers: Vec<Notifier>,
    /// One entry for each message served, in the order of the queue.
    pub redraws: Vec<Redraw>,
    /// Whether the consumer stopped because it was told to.
    pub killed: bool,
}

/// Checks the configured order: it names at least one feature, and none
/// twice.
pub fn validate_settings(settings: &Settings) -> (result: Result<(), Error>)
    ensures
        settings.general.order@.len() == 0 ==> result == Err::<(), Error>(Error::NoFeatures),
        settings.general.order@.len() > 0 && !texts(settings.general.order@).no_duplicates()
            ==> result == Err::<(), Error>(Error::DuplicateFeature),
        settings.general.order@.len() > 0 && texts(settings.general.order@).no_duplicates()
            ==> result.is_ok(),
{
    let order = &settings.general.order;
    if order.len() == 0 {
        return Err(Error::NoFeatures);
    }
    let ghost names = texts(order@);
    let mut i: usize = 0;
    while i < order.len()
        invariant
            i <= order@.len(),
            order@.len() > 0,
            order@ == settings.general.order@,
            names == texts(order@),
            forall|a: int, b: int| 0 <= a < b < i ==> names[a] != names[b],
        decreases order@.len() - i,
    {
        let mut j: usize = 0;
        while j < i
            invariant
                j <= i < order@.len(),
                order@ == settings.general.order@,
                names == texts(order@),
                forall|a: int| 0 <= a < j ==> names[a] != names[i as int],
            decreases i - j,
        {
            if same_text(order[j].as_str(), order[i].as_str()) {
                assert(names[j as int] == names[i as int]);
                return Err(Error::DuplicateFeature);
            }
            j = j + 1;
        }
        i = i + 1;
    }
    Ok(())
}

/// Makes the features of the configured order, in that order, and takes
/// their notifiers from them. Nothing is handed out unless the whole order
/// is in order.
pub fn startup(settings: &Settings) -> (result: Result<Startup, Error>)
    ensures
        match startup_error(texts(settings.general.order@)) {
            Some(error) => result.is_err() && result.unwrap_err()@ == error,
            None => {
                &&& result.is_ok()
                &&& result.unwrap().notifiers@ == notifiers_of(texts(settings.general.order@))
                &&& result.unwrap().features@.map_values(|f: Composer| f@) == features_of(
                    texts(settings.general.order@),
                    settings.audio@,
                )
            },
        },
{
    match validate_settings(settings) {
        Err(error) => {
            return Err(error);
        },
        Ok(_) => {},
    }
    let order = &settings.general.order;
    let ghost names = texts(order@);
    let ghost unknown = |name: Seq<char>| !is_feature(name);
    let mut features: Vec<Composer> = Vec::new();
    let mut notifiers: Vec<Notifier> = Vec::new();
    let mut i: usize = 0;
    while i < order.len()
        invariant
            i <= order@.len(),
            order@ == settings.general.order@,
            names == texts(order@),
            names.len() > 0,
            names.no_duplicates(),
            unknown == |name: Seq<char>| !is_feature(name),
            forall|k: int| 0 <= k < i ==> !unknown(#[trigger] names[k]),
            notifiers@.len() == i,
            features@.len() == i,
            notifiers@ == notifiers_of(names.take(i as int)),
            features@.map_values(|f: Composer| f@) == features_of(
                names.take(i as int),
                settings.audio@,
            ),
        decreases order@.len() - i,
    {
        let ghost made = features@.map_values(|f: Composer| f@);
        match create_feature(i, order[i].as_str(), settings) {
            Err(error) => {
                proof {
                    assert(unknown(names[i as int]));
                    lemma_first_where(names, unknown, i as int);
                }
                return Err(error);
            },
            Ok(feature) => {
                let mut feature = feature;
                match feature.init_notifier() {
                    Err(error) => {
                        assert(false);
                        return Err(error);
                    },
                    Ok(notifier) => {
                        notifiers.push(notifier);
                    },
                }
                features.push(feature);
            },
        }
        proof {
            assert(!unknown(names[i as int]));
            assert(notifiers@ =~= notifiers_of(names.take(i + 1)));
            let views = features@.map_values(|f: Composer| f@);
            assert(views.len() == i + 1);
            assert(views[i as int] == (ComposerView {
                name: names[i as int],
                notifier: None,
                data: data_of(names[i as int], settings.audio@),
                text: Seq::empty(),
            }));
            assert forall|k: int| 0 <= k < i implies views[k] == features_of(
                names.take(i + 1),
                settings.audio@,
            )[k] by {
                assert(views[k] == made[k]);
                assert(made[k] == features_of(names.take(i as int), settings.audio@)[k]);
            }
            assert(views =~= features_of(names.take(i + 1), settings.audio@));
        }
        i = i + 1;
    }
    proof {
        assert(names.take(i as int) =~= names);
        lemma_first_where(names, unknown, i as int);
    }
    Ok(Startup { features, notifiers })
}

/// The consumer's loop over what is in the queue: reads the messages first
/// to last and serves each, until it reads the order to stop, the queue is
/// empty, or a message names a feature that the line does not have.
/// Nothing behind the message at which it stops is read.
pub fn consume(
    bar: &mut StatusBar,
    channel: &mut Channel,
    general: &General,
    observations: &Vec<String>,
) -> (result: Result<Served, Error>)
    ensures
        ({
            let inbox = old(channel)@;
            let before = texts_of(old(bar)@);
            let count = before.len();
            let stop = first_where(inbox, |m: Message| stops(count, m));
            &&& final(channel)@ == left_behind(inbox, stop)
            &&& final(bar)@.len() == count
            &&& texts_of(final(bar)@) == texts_after_all(
                before,
                inbox.take(stop),
                texts(observations@),
            )
            &&& if stop < inbox.len() && inbox[stop] != Message::Kill {
                result.is_err() && result.unwrap_err()@ == ErrorView::UnknownIndex(
                    inbox[stop]->FeatureUpdate_0,
                )
            } else {
                &&& result.is_ok()
                &&& result.unwrap().killed == (stop < inbox.len())
                &&& result.unwrap().redraws@.len() == stop
                &&& forall|k: int|
                    0 <= k < stop ==> (#[trigger] result.unwrap().redraws@[k])@ == redraw_at(
                        before,
                        inbox,
                        k,
                        texts(observations@),
                        general.separator@,
                    )
            }
        }),
{
    let ghost inbox = channel@;
    let ghost before = texts_of(bar@);
    let ghost count = before.len();
    let ghost seen = texts(observations@);
    let ghost halts = |m: Message| stops(count, m);
    let mut redraws: Vec<Redraw> = Vec::new();
    let mut killed = false;
    let mut done = false;
    proof {
        assert(inbox.skip(0) =~= inbox);
        assert(inbox.take(0) =~= Seq::<Message>::empty());
    }
    while !done
        invariant
            inbox == old(channel)@,
            before == texts_of(old(bar)@),
            count == before.len(),
            halts == |m: Message| stops(count, m),
            seen == texts(observations@),
            redraws@.len() <= inbox.len(),
            forall|k: int| 0 <= k < redraws@.len() ==> !halts(#[trigger] inbox[k]),
            bar@.len() == count,
            texts_of(bar@) == texts_after_all(before, inbox.take(redraws@.len() as int), seen),
            forall|k: int|
                0 <= k < redraws@.len() ==> (#[trigger] redraws@[k])@ == redraw_at(
                    before,
                    inbox,
                    k,
                    seen,
                    general.separator@,
                ),
            !done ==> channel@ == inbox.skip(redraws@.len() as int) && !killed,
            done && killed ==> redraws@.len() < inbox.len() && inbox[redraws@.len() as int]
                == Message::Kill && channel@ == inbox.skip(redraws@.len() as int + 1),
            done && !killed ==> redraws@.len() == inbox.len() && channel@ == Seq::<
                Message,
            >::empty(),
        decreases
                channel@.len() + if done {
                    0int
                } else {
                    1int
                },
    {
        let ghost served = redraws@.len() as int;
        match channel.read() {
            None => {
                done = true;
            },
            Some(Message::Kill) => {
                assert(inbox[served] == Message::Kill);
                assert(inbox.skip(served).skip(1) =~= inbox.skip(served + 1));
                killed = true;
                done = true;
            },
            Some(message) => {
                assert(inbox[served] == message);
                assert(inbox.skip(served).skip(1) =~= inbox.skip(served + 1));
                let ghost old_texts = texts_of(bar@);
                match bar.update(&message, general, observations) {
                    Err(error) => {
                        proof {
                            assert(halts(inbox[served]));
                            lemma_first_where(inbox, halts, served);
                        }
                        return Err(error);
                    },
                    Ok(redraw) => {
                        proof {
                            assert(!halts(inbox[served]));
                            assert(texts_of(bar@) =~= texts_after(old_texts, message, seen));
                            assert(inbox.take(served + 1).drop_last() =~= inbox.take(served));
                            assert(inbox.take(served + 1).last() == message);
                            assert(texts_of(bar@) == texts_after_all(
                                before,
                                inbox.take(served + 1),
                                seen,
                            ));
                            assert(redraw@ == redraw_at(
                                before,
                                inbox,
                                served,
                                seen,
                                general.separator@,
                            ));
                        }
                        redraws.push(redraw);
                    },
                }
            },
        }
    }
    proof {
        let served = redraws@.len() as int;
        if killed {
            assert(halts(inbox[served]));
        }
        lemma_first_where(inbox, halts, served);
    }
    Ok(Served { redraws, killed })
}

/// Runs the line on what the queue holds: checks the configured order and
/// makes its features; puts the order to recompute all of them behind what
/// is queued; then serves the queue as `consume` does, against the
/// observations given. Where the order is refused, the queue is left as it
/// was and nothing is started.
pub fn run(settings: &Settings, channel: &mut Channel, observations: &Vec<String>) -> (result:
    Result<Outcome, Error>)
    ensures
        ({
            let order = texts(settings.general.order@);
            let blank = blank(order.len());
            let inbox = old(channel)@.push(Message::UpdateAll);
            let stop = first_where(inbox, |m: Message| stops(order.len(), m));
            match startup_error(order) {
                Some(error) => {
                    &&& result.is_err()
                    &&& result.unwrap_err()@ == error
                    &&& final(channel)@ == old(channel)@
                },
                None => {
                    &&& final(channel)@ == left_behind(inbox, stop)
                    &&& if stop < inbox.len() && inbox[stop] != Message::Kill {
                        result.is_err() && result.unwrap_err()@ == ErrorView::UnknownIndex(
                            inbox[stop]->FeatureUpdate_0,
                        )
                    } else {
                        &&& result.is_ok()
                        &&& result.unwrap().notifiers@ == notifiers_of(order)
                        &&& result.unwrap().killed == (stop < inbox.len())
                        &&& result.unwrap().redraws@.len() == stop
                        &&& forall|k: int|
                            0 <= k < stop ==> (#[trigger] result.unwrap().redraws@[k])@
                                == redraw_at(
                                blank,
                                inbox,
                                k,
                                texts(observations@),
                                settings.general.separator@,
                            )
                    }
                },
            }
        }),
{
    let started = match startup(settings) {
        Err(error) => {
            return Err(error);
        },
        Ok(started) => started,
    };
    let Startup { features, notifiers } = started;
    channel.send(Message::UpdateAll);
    let mut bar = StatusBar::init(features);
    assert(texts_of(bar@) =~= blank(settings.general.order@.len() as nat));
    match consume(&mut bar, channel, &settings.general, observations) {
        Err(error) => Err(error),
        Ok(served) => {
            let Served { redraws, killed } = served;
            Ok(Outcome { notifiers, redraws, killed })
        },
    }
}

/// An order that is not empty, names no feature twice and names only
/// features that exist is started with exactly one notifier for each
/// feature, and the notifier at each place posts for the feature at that
/// place.
pub proof fn lemma_valid_order_starts(order: Seq<Seq<char>>)
    requires
        0 < order.len() <= usize::MAX,
        order.no_duplicates(),
        forall|i: int| 0 <= i < order.len() ==> is_feature(#[trigger] order[i]),
    ensures
        startup_error(order).is_none(),
        notifiers_of(order).len() == order.len(),
        forall|i: int| 0 <= i < order.len() ==> (#[trigger] notifiers_of(order)[i]).spec_id() == i,
{
    let unknown = |name: Seq<char>| !is_feature(name);
    assert forall|k: int| 0 <= k < order.len() implies !unknown(#[trigger] order[k]) by {
        assert(is_feature(order[k]));
    }
    lemma_first_where(order, unknown, order.len() as int);
}

/// An order that names a feature twice is refused, whatever else it
/// names: no notifier is handed out for it.
pub proof fn lemma_duplicates_are_refused(order: Seq<Seq<char>>)
    requires
        !order.no_duplicates(),
    ensures
        startup_error(order) == Some(ErrorView::DuplicateFeature),
{
}

/// The order to stop cuts the queue in two: the messages ahead of it are
/// served, first to last, and those behind it are left in the queue.
pub proof fn lemma_kill_cuts_the_queue(count: nat, ahead: Seq<Message>, behind: Seq<Message>)
    requires
        forall|k: int| 0 <= k < ahead.len() ==> !stops(count, #[trigger] ahead[k]),
    ensures
        ({
            let inbox = ahead.push(Message::Kill) + behind;
            let stop = first_where(inbox, |m: Message| stops(count, m));
            &&& stop == ahead.len()
            &&& inbox[stop] == Message::Kill
            &&& inbox.take(stop) == ahead
            &&& left_behind(inbox, stop) == behind
        }),
{
    let inbox = ahead.push(Message::Kill) + behind;
    let halts = |m: Message| stops(count, m);
    let at = ahead.len() as int;
    assert forall|k: int| 0 <= k < at implies !halts(#[trigger] inbox[k]) by {
        assert(inbox[k] == ahead[k]);
    }
    assert(inbox[at] == Message::Kill);
    assert(halts(inbox[at]));
    lemma_first_where(inbox, halts, at);
    assert(inbox.take(at) =~= ahead);
    assert(inbox.skip(at + 1) =~= behind);
}

/// The order to recompute everything names every feature once, in the
/// order of the line, and leaves each with what was observed of it.
pub proof fn lemma_update_all_reads_every_feature(
    parts: Seq<Seq<char>>,
    observations: Seq<Seq<char>>,
)
    requires
        parts.len() <= usize::MAX,
    ensures
        targets(parts.len(), Message::UpdateAll).len() == parts.len(),
        forall|i: int|
            0 <= i < parts.len() ==> (#[trigger] targets(parts.len(), Message::UpdateAll)[i]) == i,
        texts_after(parts, Message::UpdateAll, observations).len() == parts.len(),
        forall|i: int|
            0 <= i < parts.len() ==> (#[trigger] texts_after(
                parts,
                Message::UpdateAll,
                observations,
            )[i]) == reading(observations, i),
{
}

/// A line of three texts is the three in order with the separator between
/// each two.
pub proof fn lemma_join_of_three(a: Seq<char>, b: Seq<char>, c: Seq<char>, separator: Seq<char>)
    ensures
        join(seq![a, b, c], separator) == a + separator + b + separator + c,
{
    let all = seq![a, b, c];
    assert(all.drop_last() =~= seq![a, b]);
    assert(all.drop_last().drop_last() =~= seq![a]);
    reveal_with_fuel(join, 3);
}

} // verus!
