//! The steps of a switch that the caller performs for the engine, and
//! what the caller reports of each.

use crate::repair::RepairChoice;
use vstd::prelude::*;

verus! {

/// A step for the caller to perform.
#[derive(Debug)]
pub enum Action {
    /// Find out whether the file exists. Answered by [`Reply::Exists`].
    FileExists { path: String },
    /// Give the file another name. Answered by [`Reply::Done`].
    Rename { from: String, to: String },
    /// Create the file, empty. Answered by [`Reply::Done`].
    CreateEmpty { path: String },
    /// Read the file as a text. Answered by [`Reply::Text`].
    ReadText { path: String },
    /// Set the player's name in the client's database. Answered by
    /// [`Reply::Done`].
    EditPlayerName { database: String, name: String },
    /// Write the text to the file, in place of what it holds. Answered by
    /// [`Reply::Done`].
    WriteText { path: String, text: String },
    /// Remove the file; that there is none is no failure. Answered by
    /// [`Reply::Done`].
    Remove { path: String },
    /// Ask the user what to do about the pending repair. Answered by
    /// [`Reply::Choice`].
    AskRepair,
    /// End the running client and start it on the server. Answered by
    /// [`Reply::Done`].
    Relaunch { executable: String, server: String },
    /// Nothing is left to do: the switch has ended.
    Finish,
}

/// A step as plain values.
pub enum ActionView {
    FileExists { path: Seq<char> },
    Rename { from: Seq<char>, to: Seq<char> },
    CreateEmpty { path: Seq<char> },
    ReadText { path: Seq<char> },
    EditPlayerName { database: Seq<char>, name: Seq<char> },
    WriteText { path: Seq<char>, text: Seq<char> },
    Remove { path: Seq<char> },
    AskRepair,
    Relaunch { executable: Seq<char>, server: Seq<char> },
    Finish,
}

impl View for Action {
    type V = ActionView;

    open spec fn view(&self) -> ActionView {
        match *self {
            Action::FileExists { path } => ActionView::FileExists { path: path@ },
            Action::Rename { from, to } => ActionView::Rename { from: from@, to: to@ },
            Action::CreateEmpty { path } => ActionView::CreateEmpty { path: path@ },
            Action::ReadText { path } => ActionView::ReadText { path: path@ },
            Action::EditPlayerName { database, name } => ActionView::EditPlayerName {
                database: database@,
                name: name@,
            },
            Action::WriteText { path, text } => ActionView::WriteText { path: path@, text: text@ },
            Action::Remove { path } => ActionView::Remove { path: path@ },
            Action::AskRepair => ActionView::AskRepair,
            Action::Relaunch { executable, server } => ActionView::Relaunch {
                executable: executable@,
                server: server@,
            },
            Action::Finish => ActionView::Finish,
        }
    }
}

/// What came of a step.
#[derive(Debug)]
pub enum Reply {
    /// Whether the file exists.
    Exists(bool),
    /// Whether the step went through.
    Done(bool),
    /// The text of the file, or `None` if it could not be read.
    Text(Option<String>),
    /// The user's answer.
    Choice(RepairChoice),
}

/// What came of a step, as plain values.
pub enum ReplyView {
    Exists(bool),
    Done(bool),
    Text(Option<Seq<char>>),
    Choice(RepairChoice),
}

impl View for Reply {
    type V = ReplyView;

    open spec fn view(&self) -> ReplyView {
        match *self {
            Reply::Exists(found) => ReplyView::Exists(found),
            Reply::Done(ok) => ReplyView::Done(ok),
            Reply::Text(Some(text)) => ReplyView::Text(Some(text@)),
            Reply::Text(None) => ReplyView::Text(None),
            Reply::Choice(choice) => ReplyView::Choice(choice),
        }
    }
}

} // verus!
