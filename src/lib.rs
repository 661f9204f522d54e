//! Reporting tables for benchmark measurements that set an operation's
//! execution time against the time spent computing the storage root.
//!
//! `RatioTable` holds one ratio per operation and sorts and renders it;
//! `StepIncrTable` holds, per operation, the steps measured at each input size
//! and sorts them by their percentage increase. Measurements are held as
//! binary64 bit patterns (`F64Bits`) and compared exactly as IEEE 754 does.
use vstd::prelude::*;

verus! {

} // verus!

pub mod appending;
pub mod float_bits;
pub mod ratio_table;
pub mod sorting;
pub mod step_table;
pub mod text_layout;

pub use float_bits::F64Bits;
pub use ratio_table::{RatioRow, RatioTable, RatioTableEntry};
pub use step_table::{StepIncrTable, StepIncrTableEntry, StepRepeatIncr, StepRow};
