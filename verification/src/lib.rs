//! Verified core of a front-end for the `nmap` network scanner.
//!
//! A scan is one run of the scanner against one target. This crate decides what
//! is run and what is made of the run; starting the process is left to a
//! launcher that the caller hands in:
//!
//! * [`command::scan_command`] builds the command line for a target;
//! * [`scan::scan_outcome`] turns what the launch gave back into the result
//!   of the scan;
//! * [`scan::invoke`] puts the two around one call of the launcher.
//!
//! Two things are taken on trust and marked where they stand: what the
//! standard library's lossy UTF-8 decoding returns ([`text`]), and the error
//! type of a failed launch, which is carried through unread ([`launch`]).

#![allow(unused_imports)]

pub mod command;
pub mod launch;
pub mod scan;
pub mod text;
