//! The notifier of the audio feature: it follows the output of a child
//! process that prints a line for every change of a mixer control.

use crate::communication::{send_message, Action, Message};
use crate::feature::{Command, CommandView};
use crate::text::texts;
use vstd::prelude::*;
use vstd::string::*;

verus! {

/// The command whose lines are the triggers.
pub open spec fn monitor_command() -> CommandView {
    CommandView { program: "stdbuf"@, arguments: seq!["-oL"@, "alsactl"@, "monitor"@] }
}

#[derive(Clone, Copy, Debug, PartialEq, Eq, Structural)]
pub struct Notifier {
    pub id: usize,
}

impl Notifier {
    /// A notifier for the feature with index `id`.
    pub fn new(id: usize) -> (notifier: Self)
        ensures
            notifier.id == id,
    {
        Notifier { id }
    }

    /// The child process to start. The content of its lines is not read.
    pub fn command(&self) -> (command: Command)
        ensures
            command@ == monitor_command(),
    {
        let mut arguments: Vec<String> = Vec::new();
        arguments.push(String::from_str("-oL"));
        arguments.push(String::from_str("alsactl"));
        arguments.push(String::from_str("monitor"));
        assert(texts(arguments@) =~= seq!["-oL"@, "alsactl"@, "monitor"@]);
        Command { program: String::from_str("stdbuf"), arguments }
    }

    /// What one line of the child asks for: the feature is posted.
    pub fn run(&self) -> (actions: Vec<Action>)
        ensures
            actions@ == seq![Action::Post(Message::FeatureUpdate(self.id))],
    {
        let mut actions: Vec<Action> = Vec::new();
        actions.push(send_message(self.id));
        assert(actions@ =~= seq![Action::Post(Message::FeatureUpdate(self.id))]);
        actions
    }
}

} // verus!
