//! Mirrors a remote playlist into a local directory.
//!
//! The library holds everything that decides: which tracks of a catalogue are
//! missing from the local mirror, what is asked of the remote services and how
//! their answers are read, what tag downloaded audio is given to carry its
//! lyrics, and the order and pace in which downloads are launched and
//! accounted for. Network and file access, and reading the tag from the
//! audio and writing it back, are left to the caller, which carries out the
//! actions the library hands it and reports back what happened.

pub mod config;
pub mod error;
pub mod http;
pub mod json;
pub mod mirror;
pub mod pipeline;
pub mod resolve;
pub mod song;
pub mod tag;
pub mod task;
pub mod text;
pub mod tx;
