//! Inclusive and exclusive `u32` prefix scans: a hierarchy of block scans
//! whose block totals are scanned recursively and added back.

pub mod pipeline;
pub mod scanner;
