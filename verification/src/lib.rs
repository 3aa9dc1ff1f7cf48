//! Core of the Aether Minecraft launcher: version rules, install planning,
//! launch planning, instance records and Java runtime selection.

pub mod assoc;
pub mod download;
pub mod error;
pub mod install;
pub mod instance;
pub mod launch;
pub mod minecraft;
pub mod platform;
pub mod runtime;
pub mod text;
