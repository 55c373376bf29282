//! A safety boundary around a native WebAssembly interpreter's resources.
//!
//! The native library hands out raw handles with no reference counting of its
//! own; this crate synthesizes the lifetime rules the library demands. An
//! [`environment::Environment`] is the root resource: many host-side holders
//! may share one native environment handle, dependent resources
//! ([`store::Store`], [`module::Module`]) keep their own holder of it, and the
//! native free routine runs exactly once, after the last holder is gone.
//!
//! The native allocator itself is represented by an instrumented stand-in,
//! [`native::NativeLib`], which logs every free call, so that "freed exactly
//! once, and only after the last holder" is a proved statement rather than a
//! convention.

pub mod environment;
pub mod error;
pub mod module;
pub mod native;
pub mod store;
