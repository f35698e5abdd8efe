//! Boundary layer between native extension code and an embedding interpreter
//! runtime.
//!
//! The host interpreter signals errors by non-local jumps rather than by
//! return values, may or may not thread a per-instance context pointer
//! through every call depending on how it was built, and hands each native
//! entry point its arguments on the host's own value stack.  This crate
//! holds the logic that reconciles those facts with ordinary native code:
//!
//! - [`context`]: the optional per-instance handle, fixed at build time;
//! - [`host`]: the host-visible effects of one native call, as plain data;
//! - [`stack`]: the per-call argument/return stack protocol;
//! - [`bridge`]: classification of native unwinds at a host boundary;
//! - [`registry`]: binding named native functions into the host's namespace.
//!
//! The host itself is a foreign program.  Everything the library decides is
//! verified here over the [`host::HostState`] model of what the host
//! observes; the thin foreign-call glue that carries those decisions across
//! the real ABI lives outside the library.

pub mod bridge;
pub mod context;
pub mod host;
pub mod registry;
pub mod stack;

pub use bridge::try_rethrow;
