//! Core of an ELM327-style diagnostic adapter emulator.
//!
//! The crate answers one command line at a time. A line is first looked up in
//! a table of canned replies ([`table`]); if it is not there it may be one of
//! the data queries ([`dynamic`]), most of which are answered with a
//! checksummed binary frame ([`frame`]). [`dispatch`] composes the three.
//! [`transport`] holds the few decisions of the serial side that are not
//! input or output themselves.
//! Every function is verified against the mathematical model stated in its
//! contract.

pub mod dispatch;
pub mod dynamic;
pub mod error;
pub mod frame;
pub mod table;
pub mod text;
pub mod transport;
