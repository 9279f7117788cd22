//! The modal key bar: while a selector or a confirmation is open it takes the keys first.

use vstd::prelude::*;

use super::view::ConfirmAction;
use crate::action::SelectorDef;
use crate::selector::{ExecuteSelector, ToggleSelector};

verus! {

/// The modal state of the key bar.
pub enum Overlay {
    Closed,
    Selector(ExecuteSelector),
    ToggleSelector(ToggleSelector),
    Confirm(ConfirmAction),
}

impl Overlay {
    /// Opens an execute-selector made from `def`.
    pub fn open_selector(def: SelectorDef) -> (r: Overlay)
        ensures
            match r {
                Overlay::Selector(sel) => sel.wf() && sel.items@ == def.items@ && sel.cursor == (
                if def.initial_cursor + 1 <= def.items@.len() {
                    def.initial_cursor
                } else if def.items@.len() == 0 {
                    0
                } else {
                    (def.items@.len() - 1) as usize
                }),
                _ => false,
            },
    {
        Overlay::Selector(ExecuteSelector::from_def(def))
    }
}

} // verus!
