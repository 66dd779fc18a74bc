use vstd::prelude::*;

verus! {

/// Why an escrow command was refused. A refused command leaves every record as it was.
#[derive(Clone, Copy, Debug, PartialEq, Eq, Structural)]
pub enum EscrowError {
    /// The record's status does not permit the operation.
    InvalidStatus,
    /// The caller is not the identity that the operation requires.
    Unauthorized,
    /// The direct / proof-based variant does not match the record's asset type.
    WrongNftType,
    /// The global configuration exists already.
    AlreadyInitialized,
    /// A batch or an asset record with the same key exists already.
    AlreadyExists,
    /// No asset record exists for the given owner and asset.
    NotRegistered,
}

} // verus!
