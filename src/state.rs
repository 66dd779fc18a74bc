use vstd::prelude::*;

use crate::error::EscrowError;
use crate::events::EscrowStatus;
use crate::key::Pubkey;

verus! {

/// The platform-wide configuration, created once.
#[derive(Clone, Copy, Debug)]
pub struct GlobalState {
    pub authority: Pubkey,
    pub fee_basis_points: u16,
    pub bump: u8,
}

/// Progress of a batch. Only `Created` is set by this library.
#[derive(Clone, Copy, Debug, PartialEq, Eq, Structural)]
pub enum BatchStatus {
    Created,
    Processing,
    Completed,
    Failed,
    Cancelled,
}

/// A caller-defined group of assets, keyed by `(owner, batch_id)`.
#[derive(Clone, Debug)]
pub struct BatchState {
    pub owner: Pubkey,
    pub batch_id: String,
    pub status: BatchStatus,
    pub created_at: i64,
    pub total_nfts: u32,
    pub processed_nfts: u32,
    pub bump: u8,
}

/// Custody record of one asset, keyed by `(owner, mint)`.
#[derive(Clone, Debug)]
pub struct EscrowState {
    pub owner: Pubkey,
    pub mint: Pubkey,
    pub batch_id: String,
    pub is_compressed: bool,
    pub status: EscrowStatus,
    pub metadata_uri: Option<String>,
    pub price: Option<u64>,
    pub created_at: i64,
    pub bump: u8,
}

/// Creates the global configuration with `authority` as the platform authority.
/// Fails with `AlreadyInitialized`, changing nothing, when it exists already.
pub fn initialize(
    config: &mut Option<GlobalState>,
    authority: Pubkey,
    admin_fee_basis_points: u16,
    bump: u8,
) -> (r: Result<(), EscrowError>)
    ensures
        old(config).is_some() <==> r == Err::<(), EscrowError>(EscrowError::AlreadyInitialized),
        r is Ok <==> old(config).is_none(),
        r is Err ==> *final(config) == *old(config),
        r is Ok ==> *final(config) == Some(
            GlobalState { authority, fee_basis_points: admin_fee_basis_points, bump },
        ),
{
    if config.is_some() {
        return Err(EscrowError::AlreadyInitialized);
    }
    *config = Some(GlobalState { authority, fee_basis_points: admin_fee_basis_points, bump });
    Ok(())
}

} // verus!
