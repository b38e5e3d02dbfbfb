//! Synthesis of WIT resource and type definitions for the JavaScript-style
//! generic built-ins that WIT has no native form for: array buffers, the
//! family of numeric typed arrays, and string-keyed records.
//!
//! Each synthesizer registers its definitions in an interface by name, once,
//! and returns the name of the resource for use at the call site.
pub mod types;
pub mod kinds;
pub mod text;
pub mod interface;
pub mod shapes;
pub mod synth;
pub mod laws;
pub mod integrity;
pub mod sessions;
