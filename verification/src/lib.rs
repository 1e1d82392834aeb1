//! Double-entry accounting primitives with machine-checked contracts.
pub mod text;
pub mod text_order;
pub mod types;
pub mod journal;
pub mod reporting;
pub mod error;
pub mod prelude;
pub mod cli;
