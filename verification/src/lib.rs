//! Command layer of a measurement-file viewer.
//!
//! A front-end opens measurement files and asks for the samples of single
//! channels. Decoding the files is the business of a decoder that the caller
//! supplies; this crate holds what lies between the two: the cache of opened
//! files, keyed by path, and the rules by which each command answers.
//!
//! * [`cache`]: the path-to-handle cache.
//! * [`reading`]: what a decoder reports of one channel, and how a report
//!   becomes a series or an error.
//! * [`commands`]: the two commands, "open and list channels" and "read
//!   channel data".
//! * [`error`]: the ways in which a command fails, and their messages.
//! * [`laws`]: properties of the commands that hold on every history of
//!   opens.

pub mod cache;
pub mod commands;
pub mod error;
pub mod laws;
pub mod reading;
