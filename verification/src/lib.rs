//! Reads, caches and displays how much of a subscription's rate limit is left.
//!
//! The library holds every rule of the tool; what touches files, processes, the network, the
//! local time zone or floating point hands it plain values and takes plain values back.

pub mod sha1;
pub mod pbkdf2;
pub mod decimal;
pub mod calls;
pub mod lock;
pub mod show;
pub mod product;
pub mod paths;
pub mod args;
pub mod cli;
pub mod json;
pub mod secret;
pub mod storage;
pub mod extract;
pub mod cache;
pub mod request;
pub mod reset;
pub mod display;
