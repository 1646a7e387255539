//! Dynamic-loading entry point for the Vulkan API.
//!
//! The crate locates the platform shared library, resolves the bootstrap
//! function pointers, builds one entry table per supported API version
//! tier, and exposes capability-tiered operations over those tables.
use vstd::prelude::*;

pub mod entry;
pub mod loading;
pub mod text;
pub mod vk;

pub use entry::Entry;
pub use entry::EntryCustom;
pub use entry::EntryV1_0;
pub use entry::EntryV1_1;
pub use entry::InstanceError;
pub use entry::LoadingError;
pub use loading::open_library;

verus! {

/// Holds exactly when no character of `s` is the NUL character, so that the
/// platform loader can take the string as a C name.
pub open spec fn no_interior_nul(s: Seq<char>) -> bool {
    forall|i: int| 0 <= i < s.len() ==> s[i] != '\0'
}

/// Target operating-system family; selects the shared-library filename.
#[derive(Clone, Copy, PartialEq, Eq, Structural, Debug)]
pub enum Platform {
    Windows,
    Unix,
    Android,
    Apple,
}

/// The exact shared-library filename for each platform family.
///
/// There is no search list and no version probing: the dynamic loader is
/// handed exactly this name.
pub fn library_filename(platform: Platform) -> (r: &'static str)
    ensures
        platform == Platform::Windows ==> r@ == "vulkan-1.dll"@,
        platform == Platform::Unix ==> r@ == "libvulkan.so.1"@,
        platform == Platform::Android ==> r@ == "libvulkan.so"@,
        platform == Platform::Apple ==> r@ == "libvulkan.dylib"@,
        no_interior_nul(r@),
{
    proof {
        reveal_strlit("vulkan-1.dll");
        reveal_strlit("libvulkan.so.1");
        reveal_strlit("libvulkan.so");
        reveal_strlit("libvulkan.dylib");
    }
    match platform {
        Platform::Windows => "vulkan-1.dll",
        Platform::Unix => "libvulkan.so.1",
        Platform::Android => "libvulkan.so",
        Platform::Apple => "libvulkan.dylib",
    }
}

} // verus!
