use vstd::prelude::*;

verus! {

/// Something that can report whether it is valid. Invalid data is never an
/// error: it is reported, and the caller decides.
pub trait Verifiable {
    /// Whether the value is valid.
    spec fn valid(&self) -> bool;

    /// Reports validity, without side effects. A type that does no checking
    /// of its own declares every value valid and returns `true`.
    fn verify(&self) -> (ok: bool)
        ensures
            ok == self.valid(),
    ;
}

} // verus!
