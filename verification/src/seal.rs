//! The capability-sealing protocol of the custom path. A declaration
//! that opts in produces a seal owned by its defining compilation unit;
//! an expanded stub compiles only when the seal for its target type was
//! produced in the stub's own unit. Units are identified by plain
//! numbers and seals gathered in one registry, modelling the type-level
//! witness the generated code demands.

use vstd::prelude::*;

use crate::diag::{plain_diag, Diagnostic, ErrorKind};
use crate::paths::str_eq;

verus! {

/// The type-level witness that one compilation unit authorized one type
/// for custom reference reinterpretation. Only the declaration-side
/// synthesizer produces these; they are never written by hand.
#[derive(Debug)]
pub struct CapabilitySeal {
    /// The compilation unit the seal was generated in, its owner.
    pub unit: u64,
    /// The name of the authorized container type.
    pub ty_name: String,
}

/// The seal authorizes casts to the type `name` from within `unit`.
pub open spec fn seal_grants(s: CapabilitySeal, unit: u64, name: Seq<char>) -> bool {
    &&& s.unit == unit
    &&& s.ty_name@ == name
}

/// The compiler's verdict on an expanded stub's capability check: the
/// cast to `to_name`, expanded in `stub_unit`, compiles exactly when
/// some seal for that type was produced in that same unit.
pub fn resolve_capability(
    seals: &Vec<CapabilitySeal>,
    stub_unit: u64,
    to_name: &str,
    span: usize,
) -> (r: Result<(), Diagnostic>)
    ensures
        r.is_ok() <==> exists|i: int|
            0 <= i < seals@.len() && seal_grants(seals@[i], stub_unit, to_name@),
        r matches Err(e) ==> e@ == plain_diag(ErrorKind::CapabilityDenied, span as nat),
{
    let n = seals.len();
    let mut i: usize = 0;
    while i < n
        invariant
            n == seals@.len(),
            i <= n,
            forall|j: int| 0 <= j < i ==> !seal_grants(seals@[j], stub_unit, to_name@),
        decreases n - i,
    {
        if seals[i].unit == stub_unit && str_eq(seals[i].ty_name.as_str(), to_name) {
            assert(seal_grants(seals@[i as int], stub_unit, to_name@));
            return Ok(());
        }
        i += 1;
    }
    Err(Diagnostic { kind: ErrorKind::CapabilityDenied, span, detail: String::new() })
}

/// Custom-path eligibility is local to the defining compilation unit: a
/// stub expanded in any other unit is denied, however visible the type
/// is, because every seal for the type is owned by the unit that
/// declared it.
pub proof fn lemma_cross_unit_denied(
    seals: Seq<CapabilitySeal>,
    declaring_unit: u64,
    stub_unit: u64,
    name: Seq<char>,
)
    requires
        forall|i: int| 0 <= i < seals.len() && seals[i].ty_name@ == name ==> seals[i].unit == declaring_unit,
        stub_unit != declaring_unit,
    ensures
        !(exists|i: int| 0 <= i < seals.len() && seal_grants(seals[i], stub_unit, name)),
{
}

} // verus!
