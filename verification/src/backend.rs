//! The parts of the backend that do not depend on the compiler session.
use crate::ffi::{ModuleTpde, ModuleView};
use vstd::prelude::*;
use vstd::string::StrSliceExecFns;

verus! {

/// A serialised module; the backend has none.
pub struct ModuleBuffer();

/// A target machine; the backend needs none.
pub struct OwnedTargetMachine();

/// Data for thin link-time optimisation, which the backend does not do.
pub struct ThinData();

impl ModuleBuffer {
    /// The serialised bytes: none.
    pub fn data(&self) -> (d: &[u8])
        ensures
            d@ == Seq::<u8>::empty(),
    {
        let empty: &[u8] = &[];
        assert(empty@ =~= Seq::<u8>::empty());
        empty
    }
}

/// The TPDE code generation backend.
pub struct TpdeCodegenBackend();

impl TpdeCodegenBackend {
    pub fn new() -> (b: TpdeCodegenBackend)
        ensures
            b == TpdeCodegenBackend(),
    {
        TpdeCodegenBackend()
    }

    pub fn name(&self) -> (n: &'static str)
        ensures
            n@ == "TPDE"@,
    {
        "TPDE"
    }

    /// The intrinsics that the backend lowers itself instead of using their
    /// fallback bodies: none yet.
    pub fn replaced_intrinsics(&self) -> (v: Vec<String>)
        ensures
            v@ == Seq::<String>::empty(),
    {
        Vec::new()
    }

    /// The intrinsics whose fallback bodies the backend does not use: none.
    pub fn fallback_intrinsics(&self) -> (v: Vec<String>)
        ensures
            v@ == Seq::<String>::empty(),
    {
        Vec::new()
    }

    pub fn thin_lto_supported(&self) -> (b: bool)
        ensures
            !b,
    {
        false
    }

    /// The allocator shim starts as an empty module.
    pub fn codegen_allocator(&self) -> (m: ModuleTpde)
        ensures
            m@ == ModuleView::empty(),
    {
        ModuleTpde::new()
    }
}

/// Whether two strings are equal.
fn str_equal(a: &str, b: &str) -> (r: bool)
    ensures
        r == (a@ == b@),
{
    let n = a.unicode_len();
    if n != b.unicode_len() {
        return false;
    }
    let mut i: usize = 0;
    while i < n
        invariant
            n == a@.len(),
            n == b@.len(),
            i <= n,
            forall|k: int| 0 <= k < i ==> a@[k] == b@[k],
        decreases n - i,
    {
        if a.get_char(i) != b.get_char(i) {
            return false;
        }
        i = i + 1;
    }
    assert(a@ =~= b@);
    true
}

/// The target features that the backend reports as enabled: `x87` and
/// `sse2`.
pub fn target_feature_enabled(feature: &str) -> (b: bool)
    ensures
        b == (feature@ == "x87"@ || feature@ == "sse2"@),
{
    str_equal(feature, "x87") || str_equal(feature, "sse2")
}

} // verus!
