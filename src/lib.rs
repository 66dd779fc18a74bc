//! A custodial escrow ledger for digital collectibles.
//!
//! An owner registers an asset, moves it into custody, and the asset leaves
//! custody either as a sale approved by the platform authority or as a return
//! to its owner. Directly held assets move through token accounts; compressed
//! assets move by a Merkle commitment. Every command is checked before any
//! custody move is attempted: a check hands out a `TransferPlan`, the caller
//! performs the move, and `Registry::complete_transfer` commits the new status.
//! A refused command changes nothing.

pub mod error;
pub mod events;
pub mod key;
pub mod registry;
pub mod state;
pub mod transfer;

pub use error::EscrowError;
pub use events::{EscrowStatus, NftRegisteredEvent, NftStatusUpdatedEvent};
pub use key::Pubkey;
pub use registry::Registry;
pub use state::{initialize, BatchState, BatchStatus, EscrowState, GlobalState};
pub use transfer::{
    is_legal_edge, is_owner, is_platform_authority, transfer_compressed_nft_from_escrow,
    transfer_compressed_nft_to_escrow, transfer_standard_nft_from_escrow,
    transfer_standard_nft_to_escrow, Capability, LeafProof, TransferPlan,
};
