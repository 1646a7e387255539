//! The trusted boundary to the platform's dynamic loader, through the
//! `shared_library` crate. Only the library-open step lives here: symbol
//! lookup and every indirect call are caller-supplied strategies, because
//! they hand out and use raw addresses.
use vstd::prelude::*;

use crate::no_interior_nul;
use crate::LoadingError;
use shared_library::dynamic_library::DynamicLibrary;
use std::path::Path;
use std::sync::Arc;

verus! {

#[verifier::external_type_specification]
#[verifier::external_body]
pub struct ExDynamicLibrary(DynamicLibrary);

/// Relies on `shared_library::dynamic_library::DynamicLibrary::open`: maps
/// the named library into the process and returns a handle to it, or the
/// platform loader's diagnostic message when it cannot be opened. The crate
/// would panic on a name with an interior NUL character (it unwraps the C
/// string conversion), so such names are excluded; the loader's diagnostic
/// text is taken to be valid UTF-8, as the platform loaders produce.
#[verifier::external_body]
fn open_dynamic_library(filename: &str) -> (r: Result<DynamicLibrary, String>)
    requires
        no_interior_nul(filename@),
{
    DynamicLibrary::open(Some(Path::new(filename)))
}

/// Open the named shared library, converting a native load failure into
/// the loading-failure error kind. The handle is reference-counted so that
/// facade clones share ownership of the mapped library.
pub fn open_library(filename: &str) -> (r: Result<Arc<DynamicLibrary>, LoadingError>)
    requires
        no_interior_nul(filename@),
    ensures
        r matches Err(e) ==> e matches LoadingError::LibraryLoadError(_),
{
    match open_dynamic_library(filename) {
        Ok(lib) => Ok(Arc::new(lib)),
        Err(message) => Err(LoadingError::LibraryLoadError(message)),
    }
}

} // verus!
