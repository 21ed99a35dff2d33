//! The reporting capability: any entity that can render a deterministic
//! textual snapshot of itself and of everything it contains.
use vstd::prelude::*;

verus! {

/// Trait for types that can generate a report.
pub trait Reporter {
    /// The exact text this entity's report renders to.
    spec fn report_spec(&self) -> Seq<char>;

    /// Generates a text report about the state of the object.
    fn report(&self) -> (r: String)
        ensures
            r@ == self.report_spec(),
    ;
}

} // verus!
