//! A terminal system-information banner.
//!
//! The library turns a handful of host facts (user name, operating system
//! name, kernel version, uptime, shell path, memory usage) into six display
//! lines and interleaves them with a fixed sixteen-line ASCII-art logo.
//! Gathering the facts and writing the result to the terminal is left to the
//! surrounding program; everything here works on plain values and is verified.

pub mod digits;
pub mod laws;
pub mod render;
pub mod report;
