//! What the screen shows: the views and the confirmations.

use vstd::prelude::*;
use vstd::string::*;

use crate::bd::Issue;

verus! {

/// An operation that asks for a y/n confirmation first.
#[derive(Debug, Clone, Copy, PartialEq, Eq, Structural)]
pub enum ConfirmAction {
    Merge,
    Discard,
    MergeEpic,
    Retry,
}

impl ConfirmAction {
    /// The key-bar label of the confirming key.
    pub fn label(&self) -> (r: &'static str)
        ensures
            r@ == match *self {
                ConfirmAction::Merge => "confirm merge"@,
                ConfirmAction::Discard => "confirm discard"@,
                ConfirmAction::MergeEpic => "confirm merge epic to master"@,
                ConfirmAction::Retry => "confirm retry"@,
            },
    {
        match self {
            ConfirmAction::Merge => "confirm merge",
            ConfirmAction::Discard => "confirm discard",
            ConfirmAction::MergeEpic => "confirm merge epic to master",
            ConfirmAction::Retry => "confirm retry",
        }
    }

    /// The question shown while the confirmation is open.
    pub fn confirm_message(&self) -> (r: &'static str)
        ensures
            r@ == match *self {
                ConfirmAction::Merge => "Merge? (y/n)"@,
                ConfirmAction::Discard => "Discard? (y/n)"@,
                ConfirmAction::MergeEpic => "Merge epic to master? (y/n)"@,
                ConfirmAction::Retry => "Retry? (y/n)"@,
            },
    {
        match self {
            ConfirmAction::Merge => "Merge? (y/n)",
            ConfirmAction::Discard => "Discard? (y/n)",
            ConfirmAction::MergeEpic => "Merge epic to master? (y/n)",
            ConfirmAction::Retry => "Retry? (y/n)",
        }
    }
}

/// The page on screen.
#[derive(Debug)]
pub enum Screen {
    IssueList,
    IssueDetail { issue_id: String, scroll_offset: u16, diff: Option<Vec<u8>> },
    EpicDetail {
        epic_id: String,
        children: Vec<Issue>,
        ready_ids: Vec<String>,
        child_selected: usize,
        scroll_offset: u16,
    },
}

} // verus!
