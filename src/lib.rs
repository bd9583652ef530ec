//! Fair rock-paper-scissors between two peers over an untrusted link, by a
//! commit-then-reveal exchange whose every step is verified.
pub mod crypto;
pub mod input;
pub mod model;
pub mod protocol;
