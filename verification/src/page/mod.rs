//! The pages' key bindings: each turns a key into the actions it stands for.

pub mod epic_detail;
pub mod issue_detail;
pub mod issue_list;
pub mod markers;
