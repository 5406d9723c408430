//! A small native-process debugger: the command grammar, the process
//! controller's state machine, symbol lookups over a binary's debug
//! information, and frame-pointer stack unwinding.
pub mod command;
pub mod controller;
pub mod symbols;
pub mod unwind;
