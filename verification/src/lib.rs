//! A call boundary between a host runtime and a JSON parsing engine.
//!
//! The host hands over a byte span and a mask of options and gets back a
//! fixed record that holds either an owned document or an owned error
//! message. This crate holds the rules of that exchange: how the mask is
//! read, what the record looks like on either outcome, and what has to be
//! given back to the allocator when the host is done with a record.
//!
//! - [`config`] reads the option mask.
//! - [`parse`] runs one parse call and says which inputs are turned away
//!   before the engine sees them.
//! - [`nesting`] measures how deeply a text nests, for one of those checks.
//! - [`record`] builds the result record and states what holds of every
//!   record.
//! - [`release`] decides what a release call gives back.
//! - [`trusted`] holds the calls into the engine and the standard library
//!   whose contracts are taken on trust.
//!
//! Raw memory is not touched here. The caller pins a document or detaches a
//! message buffer, hands the addresses in as integers, and carries out what
//! a release decides.

pub mod config;
pub mod nesting;
pub mod parse;
pub mod record;
pub mod release;
pub mod trusted;

pub use config::Config;
pub use parse::{sonic_rs_ffi_parse, ParseFailure};
pub use record::Dom;
pub use release::{sonic_rs_ffi_free, Buffer, Release};
