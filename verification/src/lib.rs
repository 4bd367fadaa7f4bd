//! Plans, validation rules and dispatch arithmetic for composable GPU
//! histograms, reductions, predicate masks, prefix scans, stream compaction,
//! run-length encoding and radix sorting.
//!
//! Every function here works on plain values that describe GPU buffers,
//! device limits and adapter capabilities. A host program owns the device,
//! creates the buffers and records the commands; this library decides what
//! to validate, how large every workspace must be, how many passes run and
//! which buffer each pass reads and writes.
pub mod argmin;
pub mod common;
pub mod compact;
pub mod context;
pub mod count;
pub mod error;
pub mod histogram;
pub mod pipeline;
pub mod predicate;
pub mod profiling;
pub mod reduce;
pub mod run_length;
pub mod scan;
pub mod sort;
pub mod v2;

pub use compact::compactor::{Compactor, KeyValueCompactor};
pub use count::{CountedSortDispatch, GpuCountPlan};
pub use error::Error;
pub use histogram::counter::Histogram;
pub use predicate::generator::MaskGenerator;
pub use predicate::{KeyValueField, U32Predicate};
pub use reduce::U32Reduction;
pub use run_length::encoder::{RunLengthEncoder, RunLengthOutputBuffers};
pub use scan::scanner::Scanner;
pub use sort::KeyValue;
