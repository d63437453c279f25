//! Safe glue around the Windows driver framework: lifetime-checked wrappers
//! for framework handles, the flattening of build metadata into key/value
//! pairs, the validation and forwarding of cargo arguments in cargo-make
//! tasks, and the command-line model of the bindings diff tool.
pub mod binding;
pub mod bindings_diff;
pub mod cargo_make;
pub mod metadata;
pub mod text;
pub mod wdf;
