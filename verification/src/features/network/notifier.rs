//! The notifier of the network feature: it follows the output of a child
//! process that prints a line for every change of an address or a link.

use crate::communication::{send_message, Action, Message};
use crate::feature::{Command, CommandView};
use crate::text::texts;
use vstd::prelude::*;
use vstd::string::*;

verus! {

/// Seconds to wait before each look after a change.
pub const DELAY_SECONDS: u64 = 2;

/// Number of looks after a change.
pub const CHECKS: usize = 2;

/// The command whose lines are the triggers.
pub open spec fn monitor_command() -> CommandView {
    CommandView { program: "ip"@, arguments: seq!["monitor"@, "address"@, "link"@] }
}

/// `count` rounds of waiting and posting for the feature `id`.
pub open spec fn checks(id: usize, count: nat) -> Seq<Action>
    decreases count,
{
    if count == 0 {
        Seq::empty()
    } else {
        checks(id, (count - 1) as nat).push(Action::Sleep(DELAY_SECONDS)).push(
            Action::Post(Message::FeatureUpdate(id)),
        )
    }
}

#[derive(Clone, Copy, Debug, PartialEq, Eq, Structural)]
pub struct Notifier {
    pub id: usize,
}

impl Notifier {
    /// A notifier for the feature with index `id`.
    pub fn new(id: usize) -> (notifier: Self)
        ensures
            notifier.id == id,
    {
        Notifier { id }
    }

    /// The child process to start. The content of its lines is not read.
    pub fn command(&self) -> (command: Command)
        ensures
            command@ == monitor_command(),
    {
        let mut arguments: Vec<String> = Vec::new();
        arguments.push(String::from_str("monitor"));
        arguments.push(String::from_str("address"));
        arguments.push(String::from_str("link"));
        assert(texts(arguments@) =~= seq!["monitor"@, "address"@, "link"@]);
        Command { program: String::from_str("ip"), arguments }
    }

    /// What one line of the child asks for: the files that depend on the
    /// change are written a little later, so the feature is posted twice,
    /// each time after a delay.
    pub fn run(&self) -> (actions: Vec<Action>)
        ensures
            actions@ == checks(self.id, CHECKS as nat),
            actions@ == seq![
                Action::Sleep(DELAY_SECONDS),
                Action::Post(Message::FeatureUpdate(self.id)),
                Action::Sleep(DELAY_SECONDS),
                Action::Post(Message::FeatureUpdate(self.id)),
            ],
    {
        let mut actions: Vec<Action> = Vec::new();
        let mut round: usize = 0;
        while round < CHECKS
            invariant
                round <= CHECKS,
                actions@ == checks(self.id, round as nat),
            decreases CHECKS - round,
        {
            actions.push(Action::Sleep(DELAY_SECONDS));
            actions.push(send_message(self.id));
            round = round + 1;
        }
        proof {
            reveal_with_fuel(checks, 3);
            assert(actions@ =~= seq![
                Action::Sleep(DELAY_SECONDS),
                Action::Post(Message::FeatureUpdate(self.id)),
                Action::Sleep(DELAY_SECONDS),
                Action::Post(Message::FeatureUpdate(self.id)),
            ]);
        }
        actions
    }
}

} // verus!
