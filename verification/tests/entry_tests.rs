use ash::entry::{
    Entry, EntryCustom, EntryV1_0, EntryV1_1, InstanceError, LoadingError,
};
use ash::vk;
use ash::{library_filename, open_library, Platform};
use std::cell::Cell;

/// A stub storage strategy: no real library is mapped.
type StubEntry = EntryCustom<u32>;

fn stub_entry() -> StubEntry {
    EntryCustom::new_custom(
        || Ok(7u32),
        |_lib: &u32, _name: &str| 100usize,
        |_gipa: usize, _instance: usize, name: &str| match name {
            "vkCreateInstance" => 201usize,
            "vkEnumerateInstanceExtensionProperties" => 202usize,
            "vkEnumerateInstanceLayerProperties" => 203usize,
            "vkEnumerateInstanceVersion" => 204usize,
            _ => 0usize,
        },
    )
    .expect("stub construction cannot fail")
}

#[test]
fn platform_filenames_are_fixed() {
    assert_eq!(library_filename(Platform::Windows), "vulkan-1.dll");
    assert_eq!(library_filename(Platform::Unix), "libvulkan.so.1");
    assert_eq!(library_filename(Platform::Android), "libvulkan.so");
    assert_eq!(library_filename(Platform::Apple), "libvulkan.dylib");
}

#[test]
fn opening_missing_library_is_an_error_not_a_panic() {
    let r = open_library("/definitely/not/a/real/library.so.1");
    match r {
        Err(LoadingError::LibraryLoadError(message)) => {
            assert!(!message.is_empty());
        }
        Ok(_) => panic!("a nonexistent library must not open"),
    }
}

#[test]
fn new_reports_load_failure_without_panicking() {
    // Whether or not a Vulkan driver is installed, construction must
    // return, never panic; a failure must be the library-load error kind.
    let r = Entry::new(
        Platform::Unix,
        |_lib, _name| 0usize,
        |_gipa, _instance, _name| 0usize,
    );
    if let Err(LoadingError::LibraryLoadError(message)) = r {
        assert!(!message.is_empty());
    }
}

#[test]
fn bootstrap_table_holds_what_the_resolver_returned() {
    let e = stub_entry();
    assert_eq!(e.static_fn.get_instance_proc_addr, 100);
    assert_eq!(e.fp_v1_0().create_instance, 201);
    assert_eq!(e.fp_v1_0().enumerate_instance_extension_properties, 202);
    assert_eq!(e.fp_v1_0().enumerate_instance_layer_properties, 203);
    assert_eq!(e.fp_v1_1().enumerate_instance_version, 204);
    assert_eq!(e.static_fn().get_instance_proc_addr, 100);
}

#[test]
fn construction_is_idempotent_for_deterministic_strategies() {
    let a = stub_entry();
    let b = stub_entry();
    assert_eq!(a.static_fn, b.static_fn);
    assert_eq!(a.entry_fn_1_0, b.entry_fn_1_0);
    assert_eq!(a.entry_fn_1_1, b.entry_fn_1_1);
}

fn layer(name: &str, version: u32) -> vk::LayerProperties {
    vk::LayerProperties {
        layer_name: name.to_string(),
        spec_version: version,
        implementation_version: 1,
    }
}

#[test]
fn enumerate_layers_returns_exactly_the_reported_count() {
    let e = stub_entry();
    let r = e.enumerate_instance_layer_properties(|addr, cap| {
        assert_eq!(addr, 203);
        match cap {
            None => (vk::Status(0), 3, Vec::new()),
            Some(count) => {
                assert_eq!(count, 3);
                (
                    vk::Status(0),
                    3,
                    vec![layer("a", 1), layer("b", 2), layer("c", 3)],
                )
            }
        }
    });
    let v = r.expect("both calls succeeded");
    assert_eq!(v.len(), 3);
    assert_eq!(v[0], layer("a", 1));
    assert_eq!(v[2], layer("c", 3));
}

#[test]
fn enumerate_layers_probe_failure_is_the_error() {
    let e = stub_entry();
    let calls = Cell::new(0u32);
    let r = e.enumerate_instance_layer_properties(|_addr, _cap| {
        calls.set(calls.get() + 1);
        (vk::Status(-1), 0, Vec::new())
    });
    assert_eq!(r, Err(vk::Status(-1)));
    // the failing probe ends the idiom: no second call, no partial data
    assert_eq!(calls.get(), 1);
}

#[test]
fn enumerate_layers_fill_failure_is_the_error() {
    let e = stub_entry();
    let r = e.enumerate_instance_layer_properties(|_addr, cap| match cap {
        None => (vk::Status(0), 2, Vec::new()),
        Some(_) => (vk::Status(-4), 0, Vec::new()),
    });
    assert_eq!(r, Err(vk::Status(-4)));
}

#[test]
fn enumerate_extensions_returns_exactly_the_reported_count() {
    let e = stub_entry();
    let r = e.enumerate_instance_extension_properties(|addr, cap| {
        assert_eq!(addr, 202);
        match cap {
            None => (vk::Status(0), 2, Vec::new()),
            Some(_) => (
                vk::Status(0),
                2,
                vec![
                    vk::ExtensionProperties {
                        extension_name: "surface".to_string(),
                        spec_version: 25,
                    },
                    vk::ExtensionProperties {
                        extension_name: "display".to_string(),
                        spec_version: 21,
                    },
                ],
            ),
        }
    });
    let v = r.expect("both calls succeeded");
    assert_eq!(v.len(), 2);
    assert_eq!(v[1].extension_name, "display");
    assert_eq!(v[1].spec_version, 21);
}

#[test]
fn enumerate_extensions_failure_is_the_error() {
    let e = stub_entry();
    let r = e.enumerate_instance_extension_properties(|_addr, _cap| {
        (vk::Status(-3), 0, Vec::new())
    });
    assert_eq!(r, Err(vk::Status(-3)));
}

#[test]
fn try_enumerate_instance_version_absent_symbol_is_ok_none() {
    let e = stub_entry();
    let r = e.try_enumerate_instance_version(
        |_gipa, _instance, _name| 0usize,
        |_addr| panic!("an unresolved symbol must never be invoked"),
    );
    assert_eq!(r, Ok(None));
}

#[test]
fn try_enumerate_instance_version_present_symbol_yields_version() {
    let e = stub_entry();
    let r = e.try_enumerate_instance_version(
        |gipa, instance, name| {
            assert_eq!(gipa, 100);
            assert_eq!(instance, 0);
            assert_eq!(name, "vkEnumerateInstanceVersion");
            204usize
        },
        |addr| {
            assert_eq!(addr, 204);
            (vk::Status(0), 4194304)
        },
    );
    assert_eq!(r, Ok(Some(4194304)));
}

#[test]
fn try_enumerate_instance_version_failure_is_the_error() {
    let e = stub_entry();
    let r = e.try_enumerate_instance_version(
        |_gipa, _instance, _name| 204usize,
        |_addr| (vk::Status(-6), 0),
    );
    assert_eq!(r, Err(vk::Status(-6)));
}

#[test]
fn enumerate_instance_version_tier_one() {
    let e = stub_entry();
    let ok = e.enumerate_instance_version(|addr| {
        assert_eq!(addr, 204);
        (vk::Status(0), 4198400)
    });
    assert_eq!(ok, Ok(4198400));
    let err = e.enumerate_instance_version(|_addr| (vk::Status(-2), 0));
    assert_eq!(err, Err(vk::Status(-2)));
}

#[test]
fn create_instance_failure_wraps_the_status_and_stops() {
    let e = stub_entry();
    let calls = Cell::new(0u32);
    let info = vk::InstanceCreateInfo { raw: 11 };
    let r = e.create_instance(&info, None, |addr, _info, _alloc| {
        calls.set(calls.get() + 1);
        assert_eq!(addr, 201);
        (vk::Status(-1), 0)
    });
    match r {
        Err(InstanceError::VkError(status)) => assert_eq!(status, vk::Status(-1)),
        _ => panic!("a non-success status must become InstanceError::VkError"),
    }
    assert_eq!(calls.get(), 1);
}

#[test]
fn create_instance_success_hands_over_handle_and_bootstrap_table() {
    let e = stub_entry();
    let info = vk::InstanceCreateInfo { raw: 11 };
    let alloc = vk::AllocationCallbacks { raw: 5 };
    let r = e.create_instance(&info, Some(&alloc), |_addr, info, alloc| {
        assert_eq!(info.raw, 11);
        assert_eq!(alloc.unwrap().raw, 5);
        (vk::Status(0), 77)
    });
    let instance = r.expect("creation succeeded");
    assert_eq!(instance.handle, 77);
    assert_eq!(instance.static_fn, e.static_fn);
}

#[test]
fn get_instance_proc_addr_passes_through_the_bootstrap_function() {
    let e = stub_entry();
    let addr = e.get_instance_proc_addr(55, "vkDestroyInstance", |gipa, instance, name| {
        assert_eq!(gipa, 100);
        assert_eq!(instance, 55);
        assert_eq!(name, "vkDestroyInstance");
        606usize
    });
    assert_eq!(addr, 606);
}
