//! Decision and parsing core of an automatic flask helper for Path of Exile 2.
//!
//! The helper reads the game's memory and sends key presses; neither happens here. The walks
//! through the game's structures are step machines: each step names the next read (an address
//! and what to read there), the caller performs it and reports what it gave, and the machine
//! decides where to go next and when the walk is done. The automation loop is driven the same
//! way by `automation::Engine`.

pub mod text;
pub mod input;
pub mod file_watch;
pub mod bindings;
pub mod offsets;
pub mod le;
pub mod error;
pub mod process;
pub mod poe2;
pub mod config;
pub mod area;
pub mod flask_inventory;
pub mod charge_sample;
pub mod automation;
pub mod buffs;
pub mod entity;
pub mod debug;
pub mod launcher;
pub mod cli;
pub mod laws;
