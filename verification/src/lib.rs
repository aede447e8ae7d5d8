//! Control core of a multiband parametric equalizer.
//!
//! The crate holds everything about the equalizer that is decided by
//! integers, flags and tables: the filter kinds and their numeric codes,
//! the cascade each kind asks for, the layout of the automation
//! parameters, the bookkeeping of pending parameter changes, and two small
//! buffers.  The arithmetic on samples lives with the caller.

pub mod eq;
pub mod eq_effect_parameters;
pub mod parameter;
pub mod units;
