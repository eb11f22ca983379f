//! The model behind a desktop settings page for workspaces: the persisted
//! workspace configuration, the page's in-memory state, the messages that
//! change it, what has to be written back to the configuration store after
//! each message, and a plain description of the three sections the page shows.
//!
//! Nothing here draws a widget or touches a store. A host reads the stored
//! values, hands them to [`page::Page::load`], forwards each user interaction
//! to [`page::Page::update`], carries out the returned [`page::Effect`], and
//! renders what the sections' `view` functions describe.

pub mod config;
pub mod text;
pub mod asset;
pub mod table;
pub mod store;
pub mod page;
pub mod sections;
