//! A tip jar: a pooled account that anyone may deposit into and only its owner
//! may empty, with a running total of everything ever deposited.

pub mod jar;
pub mod key;
pub mod laws;
