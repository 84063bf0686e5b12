//! The one-shot patch installation decision.
//!
//! During the before-specialize lifecycle phase the shell asks the host's
//! method patcher to replace the fixed target native method with the
//! trampoline's address. The patcher answers with the address of the
//! function it replaced, or null on failure. This module owns the
//! decision: a valid address is published into the pointer cell, a null
//! one leaves the cell untouched so the process continues unhooked.
//! Installation never retries and never blocks application startup.

use crate::cell::OriginalPointerCell;
use vstd::prelude::*;

verus! {

/// Identity of the native method to replace: class, method name, and
/// type signature as the virtual machine spells them.
pub struct TargetDescriptor {
    pub class_name: &'static str,
    pub method_name: &'static str,
    pub jni_signature: &'static str,
}

/// The one fixed target this hook patches: the frame-synchronization
/// entry point of the graphics subsystem.
pub open spec fn is_hook_target(d: TargetDescriptor) -> bool {
    &&& d.class_name@ == "android/graphics/HardwareRenderer"@
    &&& d.method_name@ == "nSyncAndDrawFrame"@
    &&& d.jni_signature@ == "(J[JI)I"@
}

/// Builds the descriptor of the method this hook replaces.
pub fn hook_target() -> (d: TargetDescriptor)
    ensures
        is_hook_target(d),
{
    TargetDescriptor {
        class_name: "android/graphics/HardwareRenderer",
        method_name: "nSyncAndDrawFrame",
        jni_signature: "(J[JI)I",
    }
}

/// The cell's contents after one install attempt that the patcher
/// answered with `original_addr` (zero standing for null).
pub open spec fn cell_after_install(before: Option<u64>, original_addr: u64) -> Option<u64> {
    if original_addr != 0 {
        Some(original_addr)
    } else {
        before
    }
}

/// Applies the patcher's answer: a valid (non-null) original address is
/// saved in the cell and installation succeeds; a null one is rejected,
/// the cell is left as it was, and the process stays unhooked.
pub fn apply_patch_result(cell: &mut OriginalPointerCell, original_addr: u64) -> (installed: bool)
    ensures
        installed == (original_addr != 0),
        final(cell)@ == cell_after_install(old(cell)@, original_addr),
        installed ==> final(cell)@ == Some(original_addr),
        !installed ==> final(cell)@ == old(cell)@,
{
    if original_addr != 0 {
        cell.store(original_addr);
        true
    } else {
        false
    }
}

/// One install attempt on a fresh (empty) cell fills it exactly when the
/// patch succeeded: a valid original address is saved, and before any
/// successful patch the cell stays empty.
pub proof fn lemma_install_once(original_addr: u64)
    ensures
        original_addr != 0 ==> cell_after_install(None, original_addr) == Some(original_addr),
        cell_after_install(None, 0) is None,
{
}

} // verus!
