pub mod action;
pub mod ai;
pub mod bd;
pub mod config;
pub mod core_state;
pub mod editor;
pub mod enrich;
pub mod keybar;
pub mod page;
pub mod paths;
pub mod selector;
pub mod text;
