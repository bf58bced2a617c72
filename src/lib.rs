//! Live progress and freshness logic for driving the package manager's
//! sync and upgrade commands through a pseudo-terminal.
pub mod art;
pub mod cache;
pub mod color;
pub mod config;
pub mod driver;
pub mod manager;
pub mod number;
pub mod progress;
pub mod scan;
pub mod session;
pub mod stats;
pub mod text;
pub mod upgrade;
pub mod util;
