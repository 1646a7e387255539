//! Plain-value models of the native API surface that the loader touches.
//!
//! A resolved function pointer is carried as a `usize` address, with `0`
//! standing for null. The loader never calls through an address itself:
//! every indirect call is performed by a caller-supplied strategy, and the
//! contracts here pin the loader's behaviour to whatever that strategy
//! returned.
use vstd::prelude::*;

verus! {

/// Status code returned by every native call. `0` is success; the loader
/// passes any other code through untranslated.
#[derive(Clone, Copy, PartialEq, Eq, Structural, Debug)]
pub struct Status(pub i32);

/// The one status code that means success.
pub const SUCCESS_CODE: i32 = 0;

/// Whether a native status code reports success.
pub open spec fn is_success(s: Status) -> bool {
    s.0 == SUCCESS_CODE
}

impl Status {
    /// Executable success test, equal to the spec-level one.
    pub fn success(&self) -> (r: bool)
        ensures
            r == is_success(*self),
    {
        self.0 == SUCCESS_CODE
    }
}

/// Caller-assembled record describing the instance to create. The loader
/// hands it to the native creation function unread, so it is carried as an
/// opaque payload.
#[derive(Clone, Copy, PartialEq, Eq, Structural, Debug)]
pub struct InstanceCreateInfo {
    pub raw: u64,
}

/// Caller-supplied allocation hooks, likewise carried through unread.
#[derive(Clone, Copy, PartialEq, Eq, Structural, Debug)]
pub struct AllocationCallbacks {
    pub raw: u64,
}

/// One entry of the layer enumeration.
#[derive(Clone, PartialEq, Eq, Debug)]
pub struct LayerProperties {
    pub layer_name: String,
    pub spec_version: u32,
    pub implementation_version: u32,
}

/// One entry of the extension enumeration.
#[derive(Clone, PartialEq, Eq, Debug)]
pub struct ExtensionProperties {
    pub extension_name: String,
    pub spec_version: u32,
}

/// The bootstrap tier: the fixed set of function pointers resolved directly
/// from the library handle by name. Immutable after construction; a `0`
/// entry means the symbol was absent, never that it was left uninitialized.
#[derive(Clone, Copy, PartialEq, Eq, Structural, Debug)]
pub struct StaticFn {
    pub get_instance_proc_addr: usize,
}

/// Entry-level functions of the version 1.0 tier.
#[derive(Clone, Copy, PartialEq, Eq, Structural, Debug)]
pub struct EntryFnV1_0 {
    pub create_instance: usize,
    pub enumerate_instance_extension_properties: usize,
    pub enumerate_instance_layer_properties: usize,
}

/// Entry-level functions of the version 1.1 tier.
#[derive(Clone, Copy, PartialEq, Eq, Structural, Debug)]
pub struct EntryFnV1_1 {
    pub enumerate_instance_version: usize,
}

impl StaticFn {
    /// Resolve the bootstrap symbol set in one pass through the given
    /// symbol-resolution strategy. Whatever the strategy returns is stored,
    /// null included: absence is detected only at the point of use.
    pub fn load<L, F: Fn(&L, &str) -> usize>(lib: &L, f: &F) -> (r: StaticFn)
        requires
            call_requires(*f, (lib, "vkGetInstanceProcAddr")),
        ensures
            call_ensures(*f, (lib, "vkGetInstanceProcAddr"), r.get_instance_proc_addr),
    {
        StaticFn { get_instance_proc_addr: f(lib, "vkGetInstanceProcAddr") }
    }
}

impl EntryFnV1_0 {
    /// Populate the 1.0 tier by invoking the bootstrap proc-address function
    /// (through the caller's strategy) once per operation name, with a null
    /// instance handle. Entries are stored even when null.
    pub fn load<G: Fn(usize, usize, &str) -> usize>(gipa: &G, gipa_addr: usize) -> (r: EntryFnV1_0)
        requires
            call_requires(*gipa, (gipa_addr, 0usize, "vkCreateInstance")),
            call_requires(*gipa, (gipa_addr, 0usize, "vkEnumerateInstanceExtensionProperties")),
            call_requires(*gipa, (gipa_addr, 0usize, "vkEnumerateInstanceLayerProperties")),
        ensures
            call_ensures(*gipa, (gipa_addr, 0usize, "vkCreateInstance"), r.create_instance),
            call_ensures(
                *gipa,
                (gipa_addr, 0usize, "vkEnumerateInstanceExtensionProperties"),
                r.enumerate_instance_extension_properties,
            ),
            call_ensures(
                *gipa,
                (gipa_addr, 0usize, "vkEnumerateInstanceLayerProperties"),
                r.enumerate_instance_layer_properties,
            ),
    {
        EntryFnV1_0 {
            create_instance: gipa(gipa_addr, 0, "vkCreateInstance"),
            enumerate_instance_extension_properties: gipa(
                gipa_addr,
                0,
                "vkEnumerateInstanceExtensionProperties",
            ),
            enumerate_instance_layer_properties: gipa(
                gipa_addr,
                0,
                "vkEnumerateInstanceLayerProperties",
            ),
        }
    }
}

impl EntryFnV1_1 {
    /// Populate the 1.1 tier the same way. On a 1.0-only driver the proc
    /// address degrades to null, which is stored as such: loading a higher
    /// tier never fails construction.
    pub fn load<G: Fn(usize, usize, &str) -> usize>(gipa: &G, gipa_addr: usize) -> (r: EntryFnV1_1)
        requires
            call_requires(*gipa, (gipa_addr, 0usize, "vkEnumerateInstanceVersion")),
        ensures
            call_ensures(
                *gipa,
                (gipa_addr, 0usize, "vkEnumerateInstanceVersion"),
                r.enumerate_instance_version,
            ),
    {
        EntryFnV1_1 { enumerate_instance_version: gipa(gipa_addr, 0, "vkEnumerateInstanceVersion") }
    }
}

/// Properties reported for a physical device. Only the plain-valued part
/// of the record is modelled here; its point is the fixed-size array
/// field, which stays an array (never a pointer) in the record itself.
#[derive(Clone, Copy, PartialEq, Eq, Debug)]
pub struct PhysicalDeviceProperties {
    pub api_version: u32,
    pub driver_version: u32,
    pub pipeline_cache_uuid: [u8; 16],
}

impl Default for PhysicalDeviceProperties {
    /// The all-zero record.
    fn default() -> (r: PhysicalDeviceProperties)
        ensures
            r.api_version == 0,
            r.driver_version == 0,
            forall|i: int| 0 <= i < 16 ==> r.pipeline_cache_uuid@[i] == 0u8,
    {
        PhysicalDeviceProperties {
            api_version: 0,
            driver_version: 0,
            pipeline_cache_uuid: [0u8; 16],
        }
    }
}

/// Field-by-field builder for `PhysicalDeviceProperties`.
#[derive(Clone, Copy, PartialEq, Eq, Debug)]
pub struct PhysicalDevicePropertiesBuilder {
    pub inner: PhysicalDeviceProperties,
}

impl PhysicalDeviceProperties {
    /// Start a builder from the all-zero record.
    pub fn builder() -> (r: PhysicalDevicePropertiesBuilder)
        ensures
            r.inner.api_version == 0,
            r.inner.driver_version == 0,
            forall|i: int| 0 <= i < 16 ==> r.inner.pipeline_cache_uuid@[i] == 0u8,
    {
        PhysicalDevicePropertiesBuilder { inner: Default::default() }
    }
}

impl PhysicalDevicePropertiesBuilder {
    /// Set the pipeline-cache identifier, an array carried by value.
    pub fn pipeline_cache_uuid(self, pipeline_cache_uuid: [u8; 16]) -> (r:
        PhysicalDevicePropertiesBuilder)
        ensures
            r.inner.pipeline_cache_uuid == pipeline_cache_uuid,
            r.inner.api_version == self.inner.api_version,
            r.inner.driver_version == self.inner.driver_version,
    {
        PhysicalDevicePropertiesBuilder {
            inner: PhysicalDeviceProperties { pipeline_cache_uuid, ..self.inner },
        }
    }

    /// The finished record.
    pub fn build(self) -> (r: PhysicalDeviceProperties)
        ensures
            r == self.inner,
    {
        self.inner
    }
}

/// The handoff to the instance-level dispatch layer: the raw instance
/// handle paired with the bootstrap table it can resolve its own functions
/// through.
#[derive(Clone, Copy, PartialEq, Eq, Structural, Debug)]
pub struct Instance {
    pub handle: usize,
    pub static_fn: StaticFn,
}

impl Instance {
    /// Package a freshly created instance handle with the bootstrap table.
    pub fn load(static_fn: &StaticFn, instance: usize) -> (r: Instance)
        ensures
            r == (Instance { handle: instance, static_fn: *static_fn }),
    {
        Instance { handle: instance, static_fn: *static_fn }
    }
}

} // verus!
