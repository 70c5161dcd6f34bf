//! Materialises a gzip-compressed executable that a program carries inside
//! its own image as a runnable file in a private temporary directory.
//!
//! The library decides what happens at each step of sealing and checks what
//! comes back; the program around it performs the filesystem work.

pub mod payload;
pub mod sealing;
pub mod runs;
pub mod asset;

pub use asset::Krane;
