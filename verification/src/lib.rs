//! Craby: a type-directed cross-language binding generator.
//!
//! Given a declarative module schema (method signatures, parameter and
//! return types, event signals), the library emits source code for several
//! targets — a host-language binding, a native C++ bridge, and two platform
//! FFI shims — that together expose one logical API across a managed-runtime
//! boundary and two mobile platform boundaries.

pub mod artifact;
pub mod clean;
pub mod constants;
pub mod context;
pub mod emit;
pub mod emit_ffi;
pub mod env;
pub mod errors;
pub mod gen_android;
pub mod gen_cxx;
pub mod gen_ios;
pub mod gen_rs;
pub mod gen_types;
pub mod generator;
pub mod hash;
pub mod laws;
pub mod log;
pub mod orchestrator;
pub mod paths;
pub mod resolver;
pub mod runtime;
pub mod scaffold;
pub mod schema;
pub mod text;
pub mod version;
pub mod xcode;
