//! Auxiliary color tables.

pub mod colr;
pub mod cpal;
