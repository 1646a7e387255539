//! The loader facade: composition of the library handle, the bootstrap
//! table and one entry table per version tier, with the capability-tiered
//! operations over them.
use vstd::prelude::*;

use crate::library_filename;
use crate::loading::open_library;
use crate::text::join_sep;
use crate::text::join_strs;
use crate::text::signed_decimal;
use crate::text::signed_decimal_string;
use crate::vk;
use crate::Platform;
use shared_library::dynamic_library::DynamicLibrary;
use std::sync::Arc;
use vstd::string::StringExecFns;

verus! {

/// Failure before any function pointer exists: the shared library could
/// not be opened. Fatal to construction; carries the platform loader's
/// diagnostic message.
#[derive(Clone, Debug)]
pub enum LoadingError {
    LibraryLoadError(String),
}

impl LoadingError {
    /// The diagnostic text of this error.
    pub open spec fn message_spec(&self) -> Seq<char> {
        match self {
            LoadingError::LibraryLoadError(m) => m@,
        }
    }

    /// Render the error as its diagnostic message.
    pub fn message(&self) -> (r: String)
        ensures
            r@ == self.message_spec(),
    {
        match self {
            LoadingError::LibraryLoadError(m) => String::from_str(m.as_str()),
        }
    }
}

/// Failure after loading succeeded: either the instance layer could not
/// resolve required symbols, or the native API itself reported a
/// non-success status. Never conflated with a loading failure.
#[derive(Clone, Debug)]
pub enum InstanceError {
    LoadError(Vec<&'static str>),
    VkError(vk::Status),
}

impl InstanceError {
    /// The diagnostic text of this error: the missing-symbol diagnostics
    /// joined by `"; "`, or the native status code in decimal.
    pub open spec fn message_spec(&self) -> Seq<char> {
        match self {
            InstanceError::LoadError(v) => join_sep(
                v@.map_values(|p: &'static str| p@),
                "; "@,
            ),
            InstanceError::VkError(s) => signed_decimal(s.0 as int),
        }
    }

    /// Render the error as a diagnostic message.
    pub fn message(&self) -> (r: String)
        ensures
            r@ == self.message_spec(),
    {
        match self {
            InstanceError::LoadError(v) => join_strs(v, "; "),
            InstanceError::VkError(s) => signed_decimal_string(s.0),
        }
    }
}

/// The default facade: the library is owned through a reference-counted
/// handle, so clones share one mapping and the library stays mapped until
/// the last clone is dropped.
pub type Entry = EntryCustom<Arc<DynamicLibrary>>;

/// The loader facade: one library handle, the bootstrap table, and one
/// entry table per version tier, all resolved once at construction and
/// immutable afterwards. The handle is held for the facade's whole
/// lifetime, so every resolved address it produced stays backed by a
/// mapped library.
#[derive(Clone)]
pub struct EntryCustom<L> {
    pub static_fn: vk::StaticFn,
    pub entry_fn_1_0: vk::EntryFnV1_0,
    pub entry_fn_1_1: vk::EntryFnV1_1,
    pub lib: L,
}

/// The symbol-resolution strategy never fails hard: it can be asked for
/// any name on any handle (an unresolved symbol is a null address, not an
/// error).
pub open spec fn load_strategy_total<L, Load: Fn(&L, &str) -> usize>(load: Load) -> bool {
    forall|lib: &L, name: &str| call_requires(load, (lib, name))
}

/// The proc-address strategy never fails hard either: it can be asked for
/// any name, on any proc-address function and instance handle.
pub open spec fn gipa_strategy_total<Gipa: Fn(usize, usize, &str) -> usize>(gipa: Gipa) -> bool {
    forall|addr: usize, instance: usize, name: &str| call_requires(gipa, (addr, instance, name))
}

/// Every table entry of `e` holds exactly what the two strategies returned
/// for its bootstrap symbol: the bootstrap table comes from the
/// symbol-resolution strategy on the library handle, and each tier entry
/// comes from the proc-address strategy applied to the bootstrap
/// proc-address function with a null instance handle. No entry is left
/// uninitialized.
pub open spec fn tables_resolved_by<
    L,
    Load: Fn(&L, &str) -> usize,
    Gipa: Fn(usize, usize, &str) -> usize,
>(e: EntryCustom<L>, load: Load, gipa: Gipa) -> bool {
    &&& call_ensures(load, (&e.lib, "vkGetInstanceProcAddr"), e.static_fn.get_instance_proc_addr)
    &&& call_ensures(
        gipa,
        (e.static_fn.get_instance_proc_addr, 0usize, "vkCreateInstance"),
        e.entry_fn_1_0.create_instance,
    )
    &&& call_ensures(
        gipa,
        (e.static_fn.get_instance_proc_addr, 0usize, "vkEnumerateInstanceExtensionProperties"),
        e.entry_fn_1_0.enumerate_instance_extension_properties,
    )
    &&& call_ensures(
        gipa,
        (e.static_fn.get_instance_proc_addr, 0usize, "vkEnumerateInstanceLayerProperties"),
        e.entry_fn_1_0.enumerate_instance_layer_properties,
    )
    &&& call_ensures(
        gipa,
        (e.static_fn.get_instance_proc_addr, 0usize, "vkEnumerateInstanceVersion"),
        e.entry_fn_1_1.enumerate_instance_version,
    )
}

impl<L> EntryCustom<L> {
    /// Construct a facade from caller-supplied strategies: `open` produces
    /// the library handle, `load` resolves a symbol on that handle to an
    /// address, and `gipa` invokes a resolved proc-address function for a
    /// name under an instance handle. Construction fails only when `open`
    /// fails; unresolved symbols become null entries, detected at the
    /// point of use.
    pub fn new_custom<Open, Load, Gipa>(open: Open, load: Load, gipa: Gipa) -> (r: Result<
        EntryCustom<L>,
        LoadingError,
    >)
        where
            Open: FnOnce() -> Result<L, LoadingError>,
            Load: Fn(&L, &str) -> usize,
            Gipa: Fn(usize, usize, &str) -> usize,
        requires
            call_requires(open, ()),
            load_strategy_total(load),
            gipa_strategy_total(gipa),
        ensures
            match r {
                Ok(e) => call_ensures(open, (), Ok(e.lib)) && tables_resolved_by(e, load, gipa),
                Err(err) => call_ensures(open, (), Err(err)),
            },
    {
        let lib = match open() {
            Ok(lib) => lib,
            Err(err) => {
                return Err(err);
            },
        };
        let static_fn = vk::StaticFn::load(&lib, &load);
        let entry_fn_1_0 = vk::EntryFnV1_0::load(&gipa, static_fn.get_instance_proc_addr);
        let entry_fn_1_1 = vk::EntryFnV1_1::load(&gipa, static_fn.get_instance_proc_addr);
        Ok(EntryCustom { static_fn, entry_fn_1_0, entry_fn_1_1, lib })
    }
}

impl EntryCustom<Arc<DynamicLibrary>> {
    /// Construct the default facade: open the platform's fixed library
    /// filename, resolve the bootstrap table through `load`, and populate
    /// the tier tables through `gipa`. A native load failure becomes
    /// `LoadingError::LibraryLoadError`; nothing here panics.
    pub fn new<Load, Gipa>(platform: Platform, load: Load, gipa: Gipa) -> (r: Result<
        Entry,
        LoadingError,
    >)
        where
            Load: Fn(&Arc<DynamicLibrary>, &str) -> usize,
            Gipa: Fn(usize, usize, &str) -> usize,
        requires
            load_strategy_total(load),
            gipa_strategy_total(gipa),
        ensures
            match r {
                Ok(e) => tables_resolved_by(e, load, gipa),
                Err(err) => err matches LoadingError::LibraryLoadError(_),
            },
    {
        let lib = match open_library(library_filename(platform)) {
            Ok(lib) => lib,
            Err(err) => {
                return Err(err);
            },
        };
        Self::new_custom(move || Ok(lib), load, gipa)
    }
}

/// The fixed bootstrap symbol set: the names the bootstrap tier resolves
/// directly from the library handle, sufficient to reach everything else.
pub open spec fn bootstrap_symbols() -> Seq<Seq<char>> {
    seq!["vkGetInstanceProcAddr"@]
}

/// Law: a successfully constructed facade's bootstrap table is non-empty,
/// and every bootstrap entry holds exactly an address that the
/// symbol-resolution strategy returned for its symbol — null is the only
/// allowed empty value, never an uninitialized entry.
pub proof fn lemma_bootstrap_entries_defined<L, Load, Gipa>(
    e: EntryCustom<L>,
    load: Load,
    gipa: Gipa,
)
    where
        Load: Fn(&L, &str) -> usize,
        Gipa: Fn(usize, usize, &str) -> usize,
    requires
        tables_resolved_by(e, load, gipa),
    ensures
        bootstrap_symbols().len() > 0,
        exists|name: &str|
            name@ == bootstrap_symbols()[0] && #[trigger] call_ensures(
                load,
                (&e.lib, name),
                e.static_fn.get_instance_proc_addr,
            ),
{
    assert("vkGetInstanceProcAddr"@ == bootstrap_symbols()[0]);
}

/// A symbol-resolution strategy is deterministic when every address it can
/// return is a fixed function `m` of the symbol name alone.
pub open spec fn deterministic_resolver<L, Load: Fn(&L, &str) -> usize>(
    load: Load,
    m: spec_fn(Seq<char>) -> usize,
) -> bool {
    forall|args: (&L, &str), r: usize| #[trigger] call_ensures(load, args, r) ==> r == m(args.1@)
}

/// A proc-address strategy is deterministic when every address it can
/// return is a fixed function `g` of the proc-address function, the
/// instance handle and the name.
pub open spec fn deterministic_gipa<Gipa: Fn(usize, usize, &str) -> usize>(
    gipa: Gipa,
    g: spec_fn(usize, usize, Seq<char>) -> usize,
) -> bool {
    forall|args: (usize, usize, &str), r: usize|
        #[trigger] call_ensures(gipa, args, r) ==> r == g(args.0, args.1, args.2@)
}

/// Law: construction is idempotent. Two independently constructed facades
/// whose strategies resolve deterministically through the same functions
/// hold pointer-equal resolved addresses for every symbol.
pub proof fn lemma_idempotent_construction<L, Load1, Load2, Gipa1, Gipa2>(
    e1: EntryCustom<L>,
    e2: EntryCustom<L>,
    load1: Load1,
    load2: Load2,
    gipa1: Gipa1,
    gipa2: Gipa2,
    m: spec_fn(Seq<char>) -> usize,
    g: spec_fn(usize, usize, Seq<char>) -> usize,
)
    where
        Load1: Fn(&L, &str) -> usize,
        Load2: Fn(&L, &str) -> usize,
        Gipa1: Fn(usize, usize, &str) -> usize,
        Gipa2: Fn(usize, usize, &str) -> usize,
    requires
        tables_resolved_by(e1, load1, gipa1),
        tables_resolved_by(e2, load2, gipa2),
        deterministic_resolver(load1, m),
        deterministic_resolver(load2, m),
        deterministic_gipa(gipa1, g),
        deterministic_gipa(gipa2, g),
    ensures
        e1.static_fn == e2.static_fn,
        e1.entry_fn_1_0 == e2.entry_fn_1_0,
        e1.entry_fn_1_1 == e2.entry_fn_1_1,
{
    assert(e1.static_fn.get_instance_proc_addr == m("vkGetInstanceProcAddr"@));
    assert(e2.static_fn.get_instance_proc_addr == m("vkGetInstanceProcAddr"@));
}

/// An invoker of one native enumeration function: given the function's
/// address and either no buffer (the counting probe) or a buffer capacity,
/// it reports the native status, the count the native call wrote, and the
/// elements it filled in. It can be invoked for any capacity on the given
/// address.
pub open spec fn two_call_invoker_total<T, F: Fn(usize, Option<u32>) -> (vk::Status, u32, Vec<T>)>(
    invoke: F,
    addr: usize,
) -> bool {
    forall|cap: Option<u32>| #[trigger] call_requires(invoke, (addr, cap))
}

/// The native contract behind the two-call idiom: a call that was handed a
/// buffer fills exactly as many elements as the count it reports.
pub open spec fn fills_what_it_reports<T, F: Fn(usize, Option<u32>) -> (vk::Status, u32, Vec<T>)>(
    invoke: F,
) -> bool {
    forall|args: (usize, Option<u32>), out: (vk::Status, u32, Vec<T>)|
        #[trigger] call_ensures(invoke, args, out) && args.1 is Some ==> out.2@.len() == out.1 as nat
}

/// What an enumeration returns, pinned to the invoker's possible
/// behaviours: a non-success status of the counting probe is returned as
/// the error and no second call is reflected; otherwise a non-success
/// status of the filling call is returned as the error; otherwise the
/// result is exactly the elements of the filling call, whose logical
/// length is exactly the count that call reported. No partial sequence
/// escapes on either error.
pub open spec fn two_call_outcome<T, F: Fn(usize, Option<u32>) -> (vk::Status, u32, Vec<T>)>(
    invoke: F,
    addr: usize,
    r: Result<Vec<T>, vk::Status>,
) -> bool {
    match r {
        Ok(v) => exists|probe: (vk::Status, u32, Vec<T>)|
            {
                &&& #[trigger] call_ensures(invoke, (addr, Option::<u32>::None), probe)
                &&& vk::is_success(probe.0)
                &&& exists|fill: (vk::Status, u32, Vec<T>)|
                    {
                        &&& #[trigger] call_ensures(invoke, (addr, Some(probe.1)), fill)
                        &&& vk::is_success(fill.0)
                        &&& v@ == fill.2@
                        &&& v@.len() == fill.1 as nat
                    }
            },
        Err(s) => !vk::is_success(s) && ({
            ||| exists|probe: (vk::Status, u32, Vec<T>)|
                #[trigger] call_ensures(invoke, (addr, Option::<u32>::None), probe) && probe.0 == s
            ||| exists|probe: (vk::Status, u32, Vec<T>)|
                {
                    &&& #[trigger] call_ensures(invoke, (addr, Option::<u32>::None), probe)
                    &&& vk::is_success(probe.0)
                    &&& exists|fill: (vk::Status, u32, Vec<T>)|
                        #[trigger] call_ensures(invoke, (addr, Some(probe.1)), fill) && fill.0 == s
                }
        }),
    }
}

/// The two-call enumeration idiom: first invoke the native function with
/// no buffer to obtain a count, then with a buffer of exactly that count
/// to fill it. Any non-success status from either call is the error. The
/// count is assumed not to change between the two native calls beyond what
/// the second call reports; the native API's own contract permits exactly
/// this idiom.
fn two_call_enumerate<T, F: Fn(usize, Option<u32>) -> (vk::Status, u32, Vec<T>)>(
    addr: usize,
    invoke: F,
) -> (r: Result<Vec<T>, vk::Status>)
    requires
        two_call_invoker_total(invoke, addr),
        fills_what_it_reports(invoke),
    ensures
        two_call_outcome(invoke, addr, r),
{
    let probe = invoke(addr, None);
    if !probe.0.success() {
        return Err(probe.0);
    }
    let fill = invoke(addr, Some(probe.1));
    if !fill.0.success() {
        return Err(fill.0);
    }
    Ok(fill.2)
}

/// What a version-tier query returns, pinned to the invoker's possible
/// behaviours: the queried version on success, the native status as the
/// error otherwise.
pub open spec fn version_call_outcome<F: Fn(usize) -> (vk::Status, u32)>(
    invoke: F,
    addr: usize,
    r: Result<u32, vk::Status>,
) -> bool {
    exists|out: (vk::Status, u32)|
        #[trigger] call_ensures(invoke, (addr,), out) && (if vk::is_success(out.0) {
            r == Ok::<u32, vk::Status>(out.1)
        } else {
            r == Err::<u32, vk::Status>(out.0)
        })
}

/// What the instance-creation call returns, pinned to the invoker's
/// possible behaviours: on a non-success status the status is wrapped as
/// `InstanceError::VkError` and nothing else happens; on success the raw
/// instance handle is paired with the bootstrap table as the handoff to
/// the instance-level layer.
pub open spec fn create_instance_outcome<
    F: Fn(usize, &vk::InstanceCreateInfo, Option<&vk::AllocationCallbacks>) -> (vk::Status, usize),
>(
    invoke: F,
    addr: usize,
    create_info: &vk::InstanceCreateInfo,
    allocation_callbacks: Option<&vk::AllocationCallbacks>,
    static_fn: vk::StaticFn,
    r: Result<vk::Instance, InstanceError>,
) -> bool {
    exists|out: (vk::Status, usize)|
        {
            &&& #[trigger] call_ensures(invoke, (addr, create_info, allocation_callbacks), out)
            &&& if vk::is_success(out.0) {
                r == Ok::<vk::Instance, InstanceError>(
                    vk::Instance { handle: out.1, static_fn },
                )
            } else {
                r == Err::<vk::Instance, InstanceError>(InstanceError::VkError(out.0))
            }
        }
}

/// The minimum required capability tier.
#[allow(non_camel_case_types)]
pub trait EntryV1_0 {
    /// The 1.0 entry table of this facade.
    spec fn v1_0_tables(&self) -> vk::EntryFnV1_0;

    /// The bootstrap table of this facade.
    spec fn bootstrap_table(&self) -> vk::StaticFn;

    /// The resolved 1.0 entry functions.
    fn fp_v1_0(&self) -> (r: &vk::EntryFnV1_0)
        ensures
            *r == self.v1_0_tables(),
    ;

    /// The resolved bootstrap functions.
    fn static_fn(&self) -> (r: &vk::StaticFn)
        ensures
            *r == self.bootstrap_table(),
    ;

    /// Create a top-level instance through the resolved creation function
    /// (performed by `invoke`); a non-success status is returned as
    /// `InstanceError::VkError` and no further call is made.
    fn create_instance<
        F: Fn(usize, &vk::InstanceCreateInfo, Option<&vk::AllocationCallbacks>) -> (
            vk::Status,
            usize,
        ),
    >(
        &self,
        create_info: &vk::InstanceCreateInfo,
        allocation_callbacks: Option<&vk::AllocationCallbacks>,
        invoke: F,
    ) -> (r: Result<vk::Instance, InstanceError>)
        requires
            call_requires(
                invoke,
                (self.v1_0_tables().create_instance, create_info, allocation_callbacks),
            ),
        ensures
            create_instance_outcome(
                invoke,
                self.v1_0_tables().create_instance,
                create_info,
                allocation_callbacks,
                self.bootstrap_table(),
                r,
            ),
    ;

    /// Enumerate the instance layers by the two-call idiom.
    fn enumerate_instance_layer_properties<
        F: Fn(usize, Option<u32>) -> (vk::Status, u32, Vec<vk::LayerProperties>),
    >(&self, invoke: F) -> (r: Result<Vec<vk::LayerProperties>, vk::Status>)
        requires
            two_call_invoker_total(invoke, self.v1_0_tables().enumerate_instance_layer_properties),
            fills_what_it_reports(invoke),
        ensures
            two_call_outcome(invoke, self.v1_0_tables().enumerate_instance_layer_properties, r),
    ;

    /// Enumerate the global instance extensions by the two-call idiom.
    fn enumerate_instance_extension_properties<
        F: Fn(usize, Option<u32>) -> (vk::Status, u32, Vec<vk::ExtensionProperties>),
    >(&self, invoke: F) -> (r: Result<Vec<vk::ExtensionProperties>, vk::Status>)
        requires
            two_call_invoker_total(
                invoke,
                self.v1_0_tables().enumerate_instance_extension_properties,
            ),
            fills_what_it_reports(invoke),
        ensures
            two_call_outcome(
                invoke,
                self.v1_0_tables().enumerate_instance_extension_properties,
                r,
            ),
    ;

    /// Resolve a function by name under an instance handle, directly
    /// through the bootstrap proc-address function: the passthrough the
    /// instance-level layer builds its own tables with.
    fn get_instance_proc_addr<G: Fn(usize, usize, &str) -> usize>(
        &self,
        instance: usize,
        name: &str,
        resolve: G,
    ) -> (r: usize)
        requires
            call_requires(
                resolve,
                (self.bootstrap_table().get_instance_proc_addr, instance, name),
            ),
        ensures
            call_ensures(
                resolve,
                (self.bootstrap_table().get_instance_proc_addr, instance, name),
                r,
            ),
    ;
}

/// The 1.1 capability tier, additive over 1.0.
#[allow(non_camel_case_types)]
pub trait EntryV1_1: EntryV1_0 {
    /// The 1.1 entry table of this facade.
    spec fn v1_1_tables(&self) -> vk::EntryFnV1_1;

    /// The resolved 1.1 entry functions.
    fn fp_v1_1(&self) -> (r: &vk::EntryFnV1_1)
        ensures
            *r == self.v1_1_tables(),
    ;

    /// Query the instance-level version through the resolved 1.1 function
    /// (performed by `invoke`). This call is a hard requirement: it is
    /// meaningful only on drivers that expose the version query, and the
    /// caller must have checked tier availability first.
    fn enumerate_instance_version<F: Fn(usize) -> (vk::Status, u32)>(&self, invoke: F) -> (r:
        Result<u32, vk::Status>)
        requires
            call_requires(invoke, (self.v1_1_tables().enumerate_instance_version,)),
        ensures
            version_call_outcome(invoke, self.v1_1_tables().enumerate_instance_version, r),
    ;
}

impl<L> EntryV1_0 for EntryCustom<L> {
    open spec fn v1_0_tables(&self) -> vk::EntryFnV1_0 {
        self.entry_fn_1_0
    }

    open spec fn bootstrap_table(&self) -> vk::StaticFn {
        self.static_fn
    }

    fn fp_v1_0(&self) -> (r: &vk::EntryFnV1_0) {
        &self.entry_fn_1_0
    }

    fn static_fn(&self) -> (r: &vk::StaticFn) {
        &self.static_fn
    }

    fn create_instance<
        F: Fn(usize, &vk::InstanceCreateInfo, Option<&vk::AllocationCallbacks>) -> (
            vk::Status,
            usize,
        ),
    >(
        &self,
        create_info: &vk::InstanceCreateInfo,
        allocation_callbacks: Option<&vk::AllocationCallbacks>,
        invoke: F,
    ) -> (r: Result<vk::Instance, InstanceError>) {
        let out = invoke(self.entry_fn_1_0.create_instance, create_info, allocation_callbacks);
        if !out.0.success() {
            return Err(InstanceError::VkError(out.0));
        }
        Ok(vk::Instance::load(&self.static_fn, out.1))
    }

    fn enumerate_instance_layer_properties<
        F: Fn(usize, Option<u32>) -> (vk::Status, u32, Vec<vk::LayerProperties>),
    >(&self, invoke: F) -> (r: Result<Vec<vk::LayerProperties>, vk::Status>) {
        two_call_enumerate(self.entry_fn_1_0.enumerate_instance_layer_properties, invoke)
    }

    fn enumerate_instance_extension_properties<
        F: Fn(usize, Option<u32>) -> (vk::Status, u32, Vec<vk::ExtensionProperties>),
    >(&self, invoke: F) -> (r: Result<Vec<vk::ExtensionProperties>, vk::Status>) {
        two_call_enumerate(self.entry_fn_1_0.enumerate_instance_extension_properties, invoke)
    }

    fn get_instance_proc_addr<G: Fn(usize, usize, &str) -> usize>(
        &self,
        instance: usize,
        name: &str,
        resolve: G,
    ) -> (r: usize) {
        resolve(self.static_fn.get_instance_proc_addr, instance, name)
    }
}

impl<L> EntryV1_1 for EntryCustom<L> {
    open spec fn v1_1_tables(&self) -> vk::EntryFnV1_1 {
        self.entry_fn_1_1
    }

    fn fp_v1_1(&self) -> (r: &vk::EntryFnV1_1) {
        &self.entry_fn_1_1
    }

    fn enumerate_instance_version<F: Fn(usize) -> (vk::Status, u32)>(&self, invoke: F) -> (r:
        Result<u32, vk::Status>) {
        let out = invoke(self.entry_fn_1_1.enumerate_instance_version);
        if out.0.success() {
            Ok(out.1)
        } else {
            Err(out.0)
        }
    }
}

/// What the optional version query returns once the symbol was resolved
/// to a non-null address and invoked.
pub open spec fn try_version_outcome<V: Fn(usize) -> (vk::Status, u32)>(
    invoke: V,
    addr: usize,
    r: Result<Option<u32>, vk::Status>,
) -> bool {
    exists|out: (vk::Status, u32)|
        #[trigger] call_ensures(invoke, (addr,), out) && (if vk::is_success(out.0) {
            r == Ok::<Option<u32>, vk::Status>(Some(out.1))
        } else {
            r == Err::<Option<u32>, vk::Status>(out.0)
        })
}

impl<L> EntryCustom<L> {
    /// Query the instance-level version without assuming the 1.1 tier:
    /// the version-query symbol is resolved at call time, with a null
    /// instance handle, through the bootstrap proc-address function
    /// (performed by `resolve`). An unresolved symbol means a
    /// pre-versioning driver and yields `Ok(None)` — feature absence is
    /// not an error. A resolved symbol is invoked (by `invoke`): its
    /// version is returned on success, its status as the error otherwise.
    pub fn try_enumerate_instance_version<G, V>(&self, resolve: G, invoke: V) -> (r: Result<
        Option<u32>,
        vk::Status,
    >)
        where
            G: Fn(usize, usize, &str) -> usize,
            V: Fn(usize) -> (vk::Status, u32),
        requires
            call_requires(
                resolve,
                (self.static_fn.get_instance_proc_addr, 0usize, "vkEnumerateInstanceVersion"),
            ),
            forall|addr: usize| #[trigger] call_requires(invoke, (addr,)),
        ensures
            exists|addr: usize|
                {
                    &&& #[trigger] call_ensures(
                        resolve,
                        (
                            self.static_fn.get_instance_proc_addr,
                            0usize,
                            "vkEnumerateInstanceVersion",
                        ),
                        addr,
                    )
                    &&& (addr == 0 ==> r == Ok::<Option<u32>, vk::Status>(None))
                    &&& (addr != 0 ==> try_version_outcome(invoke, addr, r))
                },
    {
        let addr = resolve(self.static_fn.get_instance_proc_addr, 0, "vkEnumerateInstanceVersion");
        if addr == 0 {
            return Ok(None);
        }
        let out = invoke(addr);
        if out.0.success() {
            Ok(Some(out.1))
        } else {
            Err(out.0)
        }
    }
}

} // verus!


