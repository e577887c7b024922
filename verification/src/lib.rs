//! Deployment of NixOS and nix-darwin systems.

pub mod command;
pub mod detached;
pub mod error;
pub mod expression;
pub mod flags;
pub mod key_uploader;
pub mod list;
pub mod number;
pub mod path;
pub mod profile;
pub mod reboot;
pub mod record;
pub mod shell;
pub mod ssh;
pub mod store;
pub mod system;
pub mod text;
pub mod watch;
