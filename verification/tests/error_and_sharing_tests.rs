use ash::entry::{EntryCustom, EntryV1_0, InstanceError, LoadingError};
use ash::text::{decimal_string, join_strs, signed_decimal_string};
use ash::vk;
use ash::open_library;
use shared_library::dynamic_library::DynamicLibrary;
use std::sync::Arc;

#[test]
fn loading_error_message_is_the_diagnostic() {
    let e = LoadingError::LibraryLoadError("cannot open object file".to_string());
    assert_eq!(e.message(), "cannot open object file");
}

#[test]
fn instance_error_message_joins_diagnostics() {
    let e = InstanceError::LoadError(vec!["vkCreateInstance", "vkDestroyInstance"]);
    assert_eq!(e.message(), "vkCreateInstance; vkDestroyInstance");
    let one = InstanceError::LoadError(vec!["vkCreateInstance"]);
    assert_eq!(one.message(), "vkCreateInstance");
    let none = InstanceError::LoadError(vec![]);
    assert_eq!(none.message(), "");
}

#[test]
fn instance_error_message_renders_the_status_code() {
    let e = InstanceError::VkError(vk::Status(-1));
    assert_eq!(e.message(), "-1");
    let big = InstanceError::VkError(vk::Status(i32::MIN));
    assert_eq!(big.message(), "-2147483648");
    let ok = InstanceError::VkError(vk::Status(5));
    assert_eq!(ok.message(), "5");
}

#[test]
fn decimal_rendering_is_exact() {
    assert_eq!(decimal_string(0), "0");
    assert_eq!(decimal_string(10), "10");
    assert_eq!(decimal_string(4194304), "4194304");
    assert_eq!(decimal_string(u64::MAX), "18446744073709551615");
    assert_eq!(signed_decimal_string(0), "0");
    assert_eq!(signed_decimal_string(-307), "-307");
}

#[test]
fn join_is_exact() {
    assert_eq!(join_strs(&vec![], "; "), "");
    assert_eq!(join_strs(&vec!["a"], "; "), "a");
    assert_eq!(join_strs(&vec!["a", "b", "c"], "; "), "a; b; c");
}

#[test]
fn status_success_test() {
    assert!(vk::Status(0).success());
    assert!(!vk::Status(-1).success());
    assert!(!vk::Status(1).success());
}

/// A facade whose storage strategy is a shared handle keeps the library
/// mapped for the union of all clones' lifetimes: the clone stays usable
/// after the original is dropped.
#[test]
fn clone_outlives_original_when_storage_is_shared() {
    // A library that is present on any host this test runs on.
    let lib: Arc<DynamicLibrary> = match open_library("libc.so.6") {
        Ok(lib) => lib,
        Err(_) => match open_library("libSystem.B.dylib") {
            Ok(lib) => lib,
            // No shared C library under a known name: nothing to exercise.
            Err(_) => return,
        },
    };
    let original = EntryCustom::new_custom(
        move || Ok(lib),
        |_lib: &Arc<DynamicLibrary>, _name: &str| 41usize,
        |_gipa, _instance, _name| 42usize,
    )
    .expect("construction with an already opened handle succeeds");
    let clone = original.clone();
    drop(original);
    // The clone still owns the mapping and its tables are intact.
    assert_eq!(clone.static_fn.get_instance_proc_addr, 41);
    assert_eq!(clone.fp_v1_0().create_instance, 42);
    let r = clone.try_enumerate_instance_version(
        |_gipa, _instance, _name| 0usize,
        |_addr| (vk::Status(0), 0),
    );
    assert_eq!(r, Ok(None));
    drop(clone);
}
