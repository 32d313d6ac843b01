//! Host-side embedding of a Java virtual machine.
//!
//! This crate models the lifecycle of an embedded JVM runtime driven from a
//! Rust host process: resolving the runtime's native entry points, creating
//! (or adopting) the single VM instance a process may hold, attaching host
//! threads to it, and invoking static test methods inside it while
//! translating the runtime's exception model into host-side errors.
//!
//! The decision logic of every step lives here, verified; the thin layer
//! that performs the actual native calls, environment lookups and process
//! spawns hands plain values in and out of these functions.

pub mod arch;
pub mod attach;
pub mod cmd;
pub mod jar;
pub mod java;
pub mod javac;
pub mod jni;
pub mod jvm;
pub mod lifecycle;
pub mod metabuild;
pub mod paths;
pub mod search;
pub mod test;
pub mod text;
