//! Publishing of a mod project folder into a game's mods directory.
//!
//! The crate holds the decisions of the tool: how a configuration key is
//! read and written, which name and destination a project is published
//! under, which entries of a tree are mirrored and how, and in which order a
//! publish runs. Reading and writing the disk, running the build and asking
//! the operator are left to the caller, who hands their results in as plain
//! values.

pub mod cli;
pub mod config;
pub mod error;
pub mod generate;
pub mod logger;
pub mod matcher;
pub mod mirror;
pub mod paths;
pub mod project;
pub mod publish;
pub mod rehearsal;
pub mod replica;
pub mod source;
pub mod text;
pub mod theorems;
pub mod tree;
pub mod trigger;
pub mod util;
