//! Identity switching for an offline game client: the stores that hold the
//! login identities, the swap between them, the engine that sequences a
//! switch, and the wizard that collects what a switch needs.

pub mod engine;
pub mod error;
pub mod input;
pub mod key;
pub mod paths;
pub mod repair;
pub mod servers;
pub mod shortcut;
pub mod step;
pub mod store;
pub mod swap;
pub mod wizard;
