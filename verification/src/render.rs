//! Rendering data that needs no GPU: shader sources.
pub mod adapter;
