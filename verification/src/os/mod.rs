//! What operating system tools report.

pub mod darwin;
