//! Timekeeping shared by the drivers.
pub mod sleep;
