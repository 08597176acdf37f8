//! Verified core of the Superpanels wallpaper manager: the decision logic,
//! parsers, caches and state machines that the daemon and the GUI shell run,
//! each stated by a contract and proved with Verus.

pub mod app_state;
pub mod autostart;
pub mod bridge;
pub mod daemon_cli;
pub mod daemon_flow;
pub mod desktop_entry;
pub mod dmabuf;
pub mod errors;
pub mod frame;
pub mod library;
pub mod notifications;
pub mod paths;
pub mod pool;
pub mod profiles;
pub mod schedule;
pub mod thumbnail_cache;
pub mod tray;
pub mod window;
pub mod text;
