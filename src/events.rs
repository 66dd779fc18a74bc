use vstd::prelude::*;

use crate::key::Pubkey;

verus! {

/// Lifecycle of an asset held by the escrow.
#[derive(Clone, Copy, Debug, PartialEq, Eq, Structural)]
pub enum EscrowStatus {
    Registered,
    InEscrow,
    Sold,
    Returned,
    /// Reserved: no operation of this library moves a record into it.
    Failed,
}

/// Audit notification that an asset record was created.
#[derive(Clone, Debug)]
pub struct NftRegisteredEvent {
    pub owner: Pubkey,
    pub mint: Pubkey,
    pub batch_id: String,
    pub is_compressed: bool,
}

/// Audit notification that an asset record changed status.
#[derive(Clone, Debug)]
pub struct NftStatusUpdatedEvent {
    pub mint: Pubkey,
    pub batch_id: String,
    pub new_status: EscrowStatus,
}

} // verus!
