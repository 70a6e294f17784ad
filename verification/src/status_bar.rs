//! The consumer's side of the line: the features with the texts computed
//! last, and the line composed of them.

use crate::communication::Message;
use crate::error::Error;
use crate::feature::{Composer, ComposerView};
use crate::settings::General;
use crate::text::{chars_of, texts};
use vstd::prelude::*;
use vstd::string::*;

verus! {

/// The texts in order, with the separator between each two.
pub open spec fn join(parts: Seq<Seq<char>>, separator: Seq<char>) -> Seq<char>
    decreases parts.len(),
{
    if parts.len() == 0 {
        Seq::empty()
    } else if parts.len() == 1 {
        parts[0]
    } else {
        join(parts.drop_last(), separator) + separator + parts.last()
    }
}

/// What was observed of the feature `index`: nothing, where the
/// observations do not reach that far.
pub open spec fn reading(observations: Seq<Seq<char>>, index: int) -> Seq<char> {
    if 0 <= index < observations.len() {
        observations[index]
    } else {
        Seq::empty()
    }
}

/// Whether a message asks for the feature `index` to be recomputed.
pub open spec fn is_target(message: Message, index: int) -> bool {
    match message {
        Message::FeatureUpdate(id) => id == index,
        Message::UpdateAll => true,
        Message::Kill => false,
    }
}

/// Whether a message can be served by a line of `count` features.
pub open spec fn accepted(count: nat, message: Message) -> bool {
    match message {
        Message::FeatureUpdate(id) => id < count,
        _ => true,
    }
}

/// The features that a message asks to recompute, in the order of the line.
pub open spec fn targets(count: nat, message: Message) -> Seq<usize> {
    match message {
        Message::FeatureUpdate(id) => if id < count {
            seq![id]
        } else {
            Seq::empty()
        },
        Message::UpdateAll => Seq::new(count, |i: int| i as usize),
        Message::Kill => Seq::empty(),
    }
}

/// The texts after a message was served: those of its targets are the
/// readings, the others stay.
pub open spec fn texts_after(
    parts: Seq<Seq<char>>,
    message: Message,
    observations: Seq<Seq<char>>,
) -> Seq<Seq<char>> {
    Seq::new(
        parts.len(),
        |i: int|
            if is_target(message, i) {
                reading(observations, i)
            } else {
                parts[i]
            },
    )
}

/// The texts of a list of features.
pub open spec fn texts_of(features: Seq<ComposerView>) -> Seq<Seq<char>> {
    features.map_values(|f: ComposerView| f.text)
}

/// The features after a message was served: only texts change.
pub open spec fn features_after(
    features: Seq<ComposerView>,
    message: Message,
    observations: Seq<Seq<char>>,
) -> Seq<ComposerView> {
    Seq::new(
        features.len(),
        |i: int|
            if is_target(message, i) {
                ComposerView { text: reading(observations, i), ..features[i] }
            } else {
                features[i]
            },
    )
}

/// What serving one message led to: the features recomputed, in order, and
/// the line to draw.
#[derive(Clone, Debug, PartialEq, Eq)]
pub struct Redraw {
    pub updated: Vec<usize>,
    pub line: String,
}

pub struct RedrawView {
    pub updated: Seq<usize>,
    pub line: Seq<char>,
}

impl View for Redraw {
    type V = RedrawView;

    open spec fn view(&self) -> RedrawView {
        RedrawView { updated: self.updated@, line: self.line@ }
    }
}

/// The features of the line in their order. Only the consumer holds it.
#[derive(Clone, Debug, PartialEq, Eq)]
pub struct StatusBar {
    features: Vec<Composer>,
}

impl View for StatusBar {
    type V = Seq<ComposerView>;

    closed spec fn view(&self) -> Seq<ComposerView> {
        self.features@.map_values(|f: Composer| f@)
    }
}

impl StatusBar {
    /// A line of these features, in this order.
    pub fn init(features: Vec<Composer>) -> (bar: Self)
        ensures
            bar@ == features@.map_values(|f: Composer| f@),
    {
        StatusBar { features }
    }

    /// Number of features.
    pub fn len(&self) -> (count: usize)
        ensures
            count == self@.len(),
    {
        self.features.len()
    }

    /// The features that a message asks to recompute.
    pub fn targets(&self, message: &Message) -> (result: Result<Vec<usize>, Error>)
        ensures
            match *message {
                Message::FeatureUpdate(id) if id >= self@.len() => result == Err::<
                    Vec<usize>,
                    Error,
                >(Error::UnknownIndex(id)),
                _ => result.is_ok() && result.unwrap()@ == targets(self@.len(), *message),
            },
    {
        let mut found: Vec<usize> = Vec::new();
        match *message {
            Message::FeatureUpdate(id) => {
                if id >= self.features.len() {
                    return Err(Error::UnknownIndex(id));
                }
                found.push(id);
                assert(found@ =~= seq![id]);
            },
            Message::UpdateAll => {
                let mut i: usize = 0;
                while i < self.features.len()
                    invariant
                        i <= self.features@.len(),
                        found@ == Seq::new(i as nat, |k: int| k as usize),
                    decreases self.features@.len() - i,
                {
                    found.push(i);
                    i = i + 1;
                    assert(found@ =~= Seq::new(i as nat, |k: int| k as usize));
                }
                assert(self@.len() == self.features@.len());
            },
            Message::Kill => {
                assert(found@ =~= Seq::<usize>::empty());
            },
        }
        Ok(found)
    }

    /// The line as it stands: the texts computed last, in the order of the
    /// features, with the separator between them.
    pub fn render(&self, general: &General) -> (line: String)
        ensures
            line@ == join(texts_of(self@), general.separator@),
    {
        let mut line = String::new();
        let mut i: usize = 0;
        while i < self.features.len()
            invariant
                i <= self.features@.len(),
                line@ == join(texts_of(self@).take(i as int), general.separator@),
            decreases self.features@.len() - i,
        {
            proof {
                let all = texts_of(self@);
                assert(all.take(i + 1).drop_last() =~= all.take(i as int));
                assert(all.take(i + 1).last() == all[i as int]);
                if i == 0 {
                    assert(line@ + all[0] =~= all[0]);
                }
            }
            if i > 0 {
                line.append(general.separator.as_str());
            }
            line.append(self.features[i].text().as_str());
            i = i + 1;
        }
        assert(texts_of(self@).take(i as int) =~= texts_of(self@));
        line
    }

    /// Serves one message: recomputes the features that it names from what
    /// was observed of them, and composes the line anew. A message for a
    /// feature that the line does not have is refused, and nothing changes.
    pub fn update(&mut self, message: &Message, general: &General, observations: &Vec<String>) -> (
        result: Result<Redraw, Error>
    )
        ensures
            match *message {
                Message::FeatureUpdate(id) if id >= old(self)@.len() => {
                    &&& result == Err::<Redraw, Error>(Error::UnknownIndex(id))
                    &&& final(self)@ == old(self)@
                },
                _ => {
                    &&& result.is_ok()
                    &&& final(self)@ == features_after(old(self)@, *message, texts(observations@))
                    &&& result.unwrap()@.updated == targets(old(self)@.len(), *message)
                    &&& result.unwrap()@.line == join(
                        texts_of(final(self)@),
                        general.separator@,
                    )
                },
            },
    {
        let updated = match self.targets(message) {
            Ok(updated) => updated,
            Err(error) => {
                return Err(error);
            },
        };
        let count: usize = self.features.len();
        let mut k: usize = 0;
        while k < updated.len()
            invariant
                k <= updated@.len(),
                count == old(self)@.len(),
                self@.len() == count,
                updated@ == targets(count as nat, *message),
                forall|i: int|
                    0 <= i < count ==> #[trigger] self@[i] == if is_target(*message, i) && exists|
                        j: int,
                    |
                        0 <= j < k && updated@[j] == i {
                        ComposerView { text: reading(texts(observations@), i), ..old(self)@[i] }
                    } else {
                        old(self)@[i]
                    },
            decreases updated@.len() - k,
        {
            let index: usize = updated[k];
            assert(index < count && is_target(*message, index as int));
            let ghost before = self@;
            if index < observations.len() {
                self.features[index].update(observations[index].as_str());
            } else {
                self.features[index].update("");
                proof {
                    reveal_strlit("");
                    assert(""@ =~= Seq::<char>::empty());
                }
            }
            proof {
                assert(self@.len() == count);
                assert forall|i: int| 0 <= i < count implies #[trigger] self@[i] == if is_target(
                    *message,
                    i,
                ) && exists|j: int| 0 <= j < k + 1 && updated@[j] == i {
                    ComposerView { text: reading(texts(observations@), i), ..old(self)@[i] }
                } else {
                    old(self)@[i]
                } by {
                    if i == index {
                        assert(updated@[k as int] == i);
                    } else {
                        assert(self@[i] == before[i]);
                        if exists|j: int| 0 <= j < k + 1 && updated@[j] == i {
                            let j = choose|j: int| 0 <= j < k + 1 && updated@[j] == i;
                            assert(j < k);
                        }
                    }
                }
            }
            k = k + 1;
        }
        proof {
            assert forall|i: int| 0 <= i < count implies self@[i] == features_after(
                old(self)@,
                *message,
                texts(observations@),
            )[i] by {
                if is_target(*message, i) {
                    match *message {
                        Message::FeatureUpdate(id) => {
                            assert(updated@[0] == i);
                        },
                        _ => {
                            assert(updated@[i] == i);
                        },
                    }
                }
            }
            assert(self@ =~= features_after(old(self)@, *message, texts(observations@)));
        }
        let line = self.render(general);
        Ok(Redraw { updated, line })
    }
}

/// Checks that a line can be handed to the display, which takes its text
/// up to the first NUL character: a line that holds one is refused.
pub fn validate_line(line: &str) -> (result: Result<(), Error>)
    ensures
        line@.contains('\0') ==> result == Err::<(), Error>(Error::InvalidText),
        !line@.contains('\0') ==> result.is_ok(),
{
    let chars = chars_of(line);
    let mut i: usize = 0;
    while i < chars.len()
        invariant
            i <= chars@.len(),
            chars@ == line@,
            forall|k: int| 0 <= k < i ==> chars@[k] != '\0',
        decreases chars@.len() - i,
    {
        if chars[i] == '\0' {
            assert(line@[i as int] == '\0');
            return Err(Error::InvalidText);
        }
        i = i + 1;
    }
    Ok(())
}

} // verus!
