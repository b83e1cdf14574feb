//! Control logic of a virtual audio router: the channel registry, the
//! persisted document and its field-by-field repair, the routing engine with
//! its generations and volume table, and the small decisions around them.

pub mod catalog;
pub mod control;
pub mod engine;
pub mod ipc;
pub mod loose;
pub mod mixer;
pub mod model;
pub mod monitor;
pub mod repair;
pub mod server;
pub mod sounds;
pub mod updater;
pub mod volume;

pub use server::ServerCommand;
