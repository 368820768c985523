//! Decision logic of a bridge between Lutron RadioRA2 and HomeCore.

pub mod action;
pub mod bridge;
pub mod command;
pub mod config;
pub mod devices;
pub mod json;
pub mod laws;
pub mod number;
pub mod outcomes;
pub mod patch;
pub mod protocol;
pub mod published;
pub mod startup;
pub mod text;
pub mod timers;
pub mod wire;
