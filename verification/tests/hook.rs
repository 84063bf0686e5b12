use frame_hook::cell::OriginalPointerCell;
use frame_hook::decode::{decode_vsync_millis, decode_vsync_ns, millis_from_nanos};
use frame_hook::installer::{apply_patch_result, hook_target};
use frame_hook::locator::{locate_processes, ProcessEntry};
use frame_hook::trampoline::{
    finish_invocation, must_release_view, trampoline_step, HookArgs, HookOutcome, SENTINEL,
};

fn le_buffer(ns: i64) -> Vec<u8> {
    ns.to_le_bytes().to_vec()
}

#[test]
fn decode_reads_little_endian_nanos() {
    assert_eq!(decode_vsync_ns(&le_buffer(16_666_667)), 16_666_667);
    assert_eq!(decode_vsync_ns(&le_buffer(0)), 0);
    assert_eq!(decode_vsync_ns(&le_buffer(-1)), -1);
    assert_eq!(decode_vsync_ns(&le_buffer(i64::MAX)), i64::MAX);
    assert_eq!(decode_vsync_ns(&le_buffer(i64::MIN)), i64::MIN);
}

#[test]
fn decode_ignores_trailing_bytes() {
    let mut buf = le_buffer(999_999);
    buf.push(0xFF);
    buf.push(0x7F);
    assert_eq!(decode_vsync_ns(&buf), 999_999);
}

#[test]
fn millis_divide_truncating() {
    assert_eq!(millis_from_nanos(16_666_667), 16);
    assert_eq!(millis_from_nanos(999_999), 0);
    assert_eq!(millis_from_nanos(1_000_000), 1);
    assert_eq!(millis_from_nanos(0), 0);
    assert_eq!(millis_from_nanos(-999_999), 0);
    assert_eq!(millis_from_nanos(-16_666_667), -16);
    assert_eq!(millis_from_nanos(i64::MIN), i64::MIN / 1_000_000);
}

#[test]
fn decode_millis_end_to_end() {
    assert_eq!(decode_vsync_millis(&le_buffer(16_666_667)), 16);
    assert_eq!(decode_vsync_millis(&le_buffer(999_999)), 0);
    assert_eq!(decode_vsync_millis(&le_buffer(1_000_000_000)), 1000);
}

#[test]
fn cell_starts_empty_and_keeps_stored_address() {
    let mut cell = OriginalPointerCell::new();
    assert_eq!(cell.load(), None);
    cell.store(0xABCD);
    assert_eq!(cell.load(), Some(0xABCD));
}

#[test]
fn hook_target_names_the_fixed_method() {
    let d = hook_target();
    assert_eq!(d.class_name, "android/graphics/HardwareRenderer");
    assert_eq!(d.method_name, "nSyncAndDrawFrame");
    assert_eq!(d.jni_signature, "(J[JI)I");
}

#[test]
fn null_patch_result_leaves_cell_empty() {
    let mut cell = OriginalPointerCell::new();
    let installed = apply_patch_result(&mut cell, 0);
    assert!(!installed);
    assert_eq!(cell.load(), None);
}

#[test]
fn valid_patch_result_is_published() {
    let mut cell = OriginalPointerCell::new();
    let installed = apply_patch_result(&mut cell, 0xABCD);
    assert!(installed);
    assert_eq!(cell.load(), Some(0xABCD));
}

#[test]
fn installed_trampoline_forwards_verbatim() {
    let mut cell = OriginalPointerCell::new();
    assert!(apply_patch_result(&mut cell, 0xABCD));
    let args = HookArgs { native_ptr: 42, sync_mode: 1 };
    let buf = le_buffer(1_000_000_000);
    let outcome = trampoline_step(&cell, Some(&buf), args);
    assert_eq!(
        outcome,
        HookOutcome::Forward { vsync_ms: 1000, original: 0xABCD, args }
    );
    assert!(must_release_view(&outcome));
    let original_result = 7;
    assert_eq!(finish_invocation(&outcome, Some(original_result)), original_result);
}

#[test]
fn unhooked_trampoline_fails_fast() {
    let cell = OriginalPointerCell::new();
    let args = HookArgs { native_ptr: 42, sync_mode: 1 };
    let buf = le_buffer(16_666_667);
    let outcome = trampoline_step(&cell, Some(&buf), args);
    assert_eq!(outcome, HookOutcome::NotInstalled { vsync_ms: 16 });
    assert!(must_release_view(&outcome));
    assert_eq!(finish_invocation(&outcome, None), SENTINEL);
}

#[test]
fn unavailable_buffer_short_circuits_without_release() {
    let mut cell = OriginalPointerCell::new();
    assert!(apply_patch_result(&mut cell, 0xABCD));
    let args = HookArgs { native_ptr: 42, sync_mode: 1 };
    let outcome = trampoline_step(&cell, None, args);
    assert_eq!(outcome, HookOutcome::BufferUnavailable);
    assert!(!must_release_view(&outcome));
    assert_eq!(finish_invocation(&outcome, None), SENTINEL);
}

#[test]
fn locator_returns_matches_in_enumeration_order() {
    let entries = vec![
        ProcessEntry { pid: 100, cmdline: Some(String::from("com.example.app")) },
        ProcessEntry { pid: 101, cmdline: Some(String::from("com.example.app")) },
        ProcessEntry { pid: 102, cmdline: Some(String::from("com.other")) },
    ];
    let pids = locate_processes(&entries, &String::from("com.example.app"));
    assert_eq!(pids, vec![100, 101]);
}

#[test]
fn locator_skips_unreadable_entries() {
    let entries = vec![
        ProcessEntry { pid: 100, cmdline: Some(String::from("com.example.app")) },
        ProcessEntry { pid: 101, cmdline: None },
        ProcessEntry { pid: 102, cmdline: Some(String::from("com.example.app")) },
    ];
    let pids = locate_processes(&entries, &String::from("com.example.app"));
    assert_eq!(pids, vec![100, 102]);
}

#[test]
fn locator_finds_nothing_for_absent_package() {
    let entries = vec![ProcessEntry { pid: 1, cmdline: Some(String::from("init")) }];
    let pids = locate_processes(&entries, &String::from("com.example.app"));
    assert!(pids.is_empty());
}
