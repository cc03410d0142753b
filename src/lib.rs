//! Core of a terminal browser for an ordered key-value store: content-type
//! sniffing of raw values and the two-pane navigation state machine.

pub mod cli;
pub mod content;
pub mod laws;
pub mod nav;
