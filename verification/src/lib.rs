//! Backend command surface for a desktop GUI shell: a string greeter and a
//! directory-listing helper. The host process probes the filesystem and hands
//! the results here as plain values; every decision and every message built
//! from them is verified.

pub mod greeting;
pub mod listing;
