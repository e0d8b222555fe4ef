//! Drives an ahead-of-time C-to-WebAssembly toolchain: a type-state builder
//! for compilation requests, the exact argument vector handed to the
//! toolchain, the decisions of one compilation session, and the extraction of
//! the toolchain's version from its diagnostic output.
pub mod char_class;
pub mod configuration;
pub mod compile;
pub mod configuration_builder;
pub mod error;
pub mod version;
