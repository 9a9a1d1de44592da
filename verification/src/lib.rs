//! Capability-typed handles over datasets kept by a native storage library.
//!
//! The storage library is reached through a C interface that hands out one
//! untyped integer per open dataset. This crate decides what is asked of that
//! interface and what each answer means: which native call an operation makes
//! and with which arguments, how a status code becomes a typed error, which
//! operations a read-only, a mutable or a memory-backed view offers, and in
//! which order the process-wide lock is taken, the call made and the lock
//! given back. The calls themselves are made by the embedding program, which
//! hands every [`Call`](call::Call) to the native library and the
//! [`Reply`](call::Reply) back to this crate.

pub mod error;
pub mod text;
pub mod call;
pub mod lock;
pub mod group;
pub mod dimension;
pub mod variable;
pub mod attribute;
pub mod file;
