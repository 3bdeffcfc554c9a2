//! A verified model of a shader-program wrapper over a native graphics API.
//!
//! The library owns every decision the wrapper makes — which native calls to
//! issue when building a program, how to recover from a compile failure by
//! substituting a fallback "error" shader, when a uniform lookup deserves a
//! warning, and when the one program handle is released — while the native
//! calls themselves are performed by an unverified driver that reports each
//! outcome back.

pub mod calls;
pub mod driver;
pub mod machine;
pub mod mock;
pub mod shader;
