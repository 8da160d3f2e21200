//! Core logic of a Minecraft launcher: account sign-in flow, game and loader
//! installation plans, launch commands, instances and their mods, the Modrinth
//! catalogue and locally hosted servers.

pub mod auth;
pub mod error;
pub mod http;
pub mod identity;
pub mod instance;
pub mod json;
pub mod launching;
pub mod lists;
pub mod loaders;
pub mod minecraft;
pub mod modrinth;
pub mod paths;
pub mod process;
pub mod server;
pub mod text;
