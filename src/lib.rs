//! Browser-facing layer over the SixtyFPS interpreter: compile outcomes,
//! diagnostic flattening and import-callback plumbing, with their contracts.

pub mod component;
pub mod decimal;
pub mod diagnostics;
pub mod imports;
