//! Flattening of build metadata into `KEY=VALUE` pairs, as handed to build
//! scripts through environment variables.
pub mod error;
pub mod ser;
