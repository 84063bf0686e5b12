//! Verified core of a native-method frame-timing hook.
//!
//! The library models the logic of a hook that replaces one registered
//! native function pointer with a trampoline: saving the original pointer
//! exactly once, decoding the fixed-layout frame-info payload, deciding on
//! every intercepted call whether to forward to the original or fail fast
//! with a sentinel, and matching process snapshots against a package name.
//! The foreign-function shell that drives this logic lives outside the
//! library and hands it plain values.

pub mod cell;
pub mod decode;
pub mod installer;
pub mod locator;
pub mod trampoline;
