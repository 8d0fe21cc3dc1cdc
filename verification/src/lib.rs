//! A terminal rendering backend: it turns a stream of changed, styled cells
//! into the control sequences that reproduce them on a terminal, tracks the
//! style the terminal is left in, and decodes the terminal's cursor report.
//!
//! The control sequences themselves are formatted by the `termina` crate; the
//! decisions about which of them to send, and in which order, are made and
//! proved here.

pub mod backend;
pub mod cell;
pub mod color;
pub mod command;
pub mod escape;
pub mod modifier;
pub mod query;
pub mod style;
pub mod terminal;
