use vstd::prelude::*;

verus! {

/// The kinds of failure a handler can report to the host.
///
/// Every error is returned to the host unchanged; the host rolls the
/// invocation back and surfaces the error to the original caller.
#[derive(Debug, Clone, PartialEq, Eq)]
pub enum ContractError {
    /// An underlying storage read or write failed for a reason outside
    /// this core's control.  The in-memory state store never produces it;
    /// the host edge maps its own storage failures onto this kind.
    StorageFault,
    /// A required state key was read before it was ever set.
    NotFound,
    /// The caller of an owner-restricted operation is not the stored owner.
    Unauthorized { owner: String },
    /// A pure arithmetic query would exceed its numeric range.
    Overflow,
}

/// Mathematical image of a `ContractError`: the owner identity is taken
/// to its character sequence.
#[verifier::ext_equal]
pub ghost enum ErrorV {
    StorageFault,
    NotFound,
    Unauthorized { owner: Seq<char> },
    Overflow,
}

impl View for ContractError {
    type V = ErrorV;

    open spec fn view(&self) -> ErrorV {
        match self {
            ContractError::StorageFault => ErrorV::StorageFault,
            ContractError::NotFound => ErrorV::NotFound,
            ContractError::Unauthorized { owner } => ErrorV::Unauthorized { owner: owner@ },
            ContractError::Overflow => ErrorV::Overflow,
        }
    }
}

} // verus!
