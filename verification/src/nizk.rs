//! Non-interactive zero-knowledge proofs: setup, prove, verify.

use vstd::prelude::*;

verus! {

/// A non-interactive zero-knowledge proof system: a common reference
/// string produced at setup, a proof computed from a statement and a
/// witness, and a boolean verdict.
///
/// The contracts carry the completeness law: proving a statement in the
/// relation under a well-formed reference string yields a proof the
/// verifier accepts, and the verifier's verdict is exactly the acceptance
/// predicate. Proving a false statement is not rejected at runtime; it
/// merely promises nothing.
pub trait NIZK {
    type CRS;
    type Statement;
    type Witness;
    type Proof;

    /// The well-formed common reference strings.
    spec fn wf_crs(crs: &Self::CRS) -> bool;

    /// The hard relation this proof system is about.
    spec fn relation(crs: &Self::CRS, x: &Self::Statement, w: &Self::Witness) -> bool;

    /// The acceptance predicate the verifier decides.
    spec fn accepts(crs: &Self::CRS, x: &Self::Statement, p: &Self::Proof) -> bool;

    fn crs_gen() -> (crs: Self::CRS)
        ensures
            Self::wf_crs(&crs),
    ;

    fn prove(crs: &Self::CRS, x: &Self::Statement, w: &Self::Witness) -> (p: Self::Proof)
        requires
            Self::wf_crs(crs),
            Self::relation(crs, x, w),
        ensures
            Self::accepts(crs, x, &p),
    ;

    fn verify(crs: &Self::CRS, x: &Self::Statement, p: &Self::Proof) -> (r: bool)
        ensures
            r == Self::accepts(crs, x, p),
    ;
}

} // verus!
