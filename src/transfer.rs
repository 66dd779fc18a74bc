use vstd::prelude::*;

use crate::error::EscrowError;
use crate::events::EscrowStatus;
use crate::key::Pubkey;
use crate::state::{EscrowState, GlobalState};

verus! {

/// The status edges that a custody transfer may take.
pub open spec fn legal_edge(from: EscrowStatus, to: EscrowStatus) -> bool {
    ||| (from == EscrowStatus::Registered && to == EscrowStatus::InEscrow)
    ||| (from == EscrowStatus::InEscrow && to == EscrowStatus::Sold)
    ||| (from == EscrowStatus::InEscrow && to == EscrowStatus::Returned)
}

/// Executable form of `legal_edge`.
pub fn is_legal_edge(from: EscrowStatus, to: EscrowStatus) -> (r: bool)
    ensures
        r == legal_edge(from, to),
{
    match (from, to) {
        (EscrowStatus::Registered, EscrowStatus::InEscrow) => true,
        (EscrowStatus::InEscrow, EscrowStatus::Sold) => true,
        (EscrowStatus::InEscrow, EscrowStatus::Returned) => true,
        _ => false,
    }
}

/// `Sold` and `Returned` are terminal, and no edge leads back to `Registered`.
pub proof fn lemma_terminal_states(s: EscrowStatus)
    ensures
        !legal_edge(EscrowStatus::Sold, s),
        !legal_edge(EscrowStatus::Returned, s),
        !legal_edge(s, EscrowStatus::Registered),
        !legal_edge(s, EscrowStatus::Failed),
{
}

/// Authorization: the caller is the record's owner.
pub fn is_owner(state: &EscrowState, caller: &Pubkey) -> (r: bool)
    ensures
        r == (caller@ == state.owner@),
{
    caller.same_as(&state.owner)
}

/// Authorization: the caller is the platform authority.
pub fn is_platform_authority(global: &GlobalState, caller: &Pubkey) -> (r: bool)
    ensures
        r == (caller@ == global.authority@),
{
    caller.same_as(&global.authority)
}

/// A Merkle commitment proving a compressed asset's current owner and tree position.
#[derive(Clone, Copy, Debug)]
pub struct LeafProof {
    pub root: [u8; 32],
    pub data_hash: [u8; 32],
    pub creator_hash: [u8; 32],
    pub nonce: u64,
    pub index: u32,
}

/// Which derived signing identity authorizes the external transfer.
#[derive(Clone, Copy, Debug, PartialEq, Eq, Structural)]
pub enum Capability {
    /// Moves the asset from the owner into custody.
    Delegate,
    /// Moves the asset out of custody.
    Escrow,
}

/// The label that scopes a capability's derivation, as bytes.
pub open spec fn capability_label(c: Capability) -> Seq<u8> {
    match c {
        // "delegate"
        Capability::Delegate => seq![100u8, 101, 108, 101, 103, 97, 116, 101],
        // "escrow"
        Capability::Escrow => seq![101u8, 115, 99, 114, 111, 119],
    }
}

/// A custody transfer that passed every check and awaits the external primitive.
/// Only the checks of this module build one.
#[derive(Clone, Debug)]
pub struct TransferPlan {
    owner: Pubkey,
    mint: Pubkey,
    capability: Capability,
    leaf_proof: Option<LeafProof>,
    from_status: EscrowStatus,
    new_status: EscrowStatus,
}

impl TransferPlan {
    pub closed spec fn spec_owner(&self) -> Pubkey {
        self.owner
    }

    pub closed spec fn spec_mint(&self) -> Pubkey {
        self.mint
    }

    pub closed spec fn spec_capability(&self) -> Capability {
        self.capability
    }

    pub closed spec fn spec_leaf_proof(&self) -> Option<LeafProof> {
        self.leaf_proof
    }

    pub closed spec fn spec_from_status(&self) -> EscrowStatus {
        self.from_status
    }

    pub closed spec fn spec_new_status(&self) -> EscrowStatus {
        self.new_status
    }

    pub fn owner(&self) -> (r: Pubkey)
        ensures
            r == self.spec_owner(),
    {
        self.owner
    }

    pub fn mint(&self) -> (r: Pubkey)
        ensures
            r == self.spec_mint(),
    {
        self.mint
    }

    pub fn capability(&self) -> (r: Capability)
        ensures
            r == self.spec_capability(),
    {
        self.capability
    }

    /// The Merkle commitment for a proof-based transfer; `None` for a direct one.
    pub fn leaf_proof(&self) -> (r: Option<LeafProof>)
        ensures
            r == self.spec_leaf_proof(),
    {
        self.leaf_proof
    }

    pub fn from_status(&self) -> (r: EscrowStatus)
        ensures
            r == self.spec_from_status(),
    {
        self.from_status
    }

    pub fn new_status(&self) -> (r: EscrowStatus)
        ensures
            r == self.spec_new_status(),
    {
        self.new_status
    }

    /// The seeds of the signing identity, scoped to `(owner, mint)`:
    /// the capability's label, the owner's bytes, the mint's bytes.
    pub fn signer_seeds(&self) -> (r: Vec<Vec<u8>>)
        ensures
            r@.len() == 3,
            r@[0]@ == capability_label(self.spec_capability()),
            r@[1]@ == self.spec_owner()@,
            r@[2]@ == self.spec_mint()@,
    {
        let label = match self.capability {
            Capability::Delegate => vec![100u8, 101, 108, 101, 103, 97, 116, 101],
            Capability::Escrow => vec![101u8, 115, 99, 114, 111, 119],
        };
        proof {
            assert(label@ =~= capability_label(self.capability));
        }
        let mut seeds: Vec<Vec<u8>> = Vec::new();
        seeds.push(label);
        seeds.push(bytes_to_vec(&self.owner.bytes));
        seeds.push(bytes_to_vec(&self.mint.bytes));
        seeds
    }
}

fn bytes_to_vec(b: &[u8; 32]) -> (r: Vec<u8>)
    ensures
        r@ == b@,
{
    let mut v: Vec<u8> = Vec::new();
    let mut i: usize = 0;
    while i < 32
        invariant
            i <= 32,
            b@.len() == 32,
            v@ == b@.subrange(0, i as int),
        decreases 32 - i,
    {
        v.push(b[i]);
        i = i + 1;
        assert(v@ =~= b@.subrange(0, i as int));
    }
    assert(b@.subrange(0, 32) =~= b@);
    v
}

/// The plan that a check hands out once it accepts.
pub open spec fn plan_is(
    p: TransferPlan,
    state: EscrowState,
    capability: Capability,
    leaf_proof: Option<LeafProof>,
    to: EscrowStatus,
) -> bool {
    &&& p.spec_owner() == state.owner
    &&& p.spec_mint() == state.mint
    &&& p.spec_capability() == capability
    &&& p.spec_leaf_proof() == leaf_proof
    &&& p.spec_from_status() == state.status
    &&& p.spec_new_status() == to
}

/// Outcome of the checks of a transfer into custody, in their order:
/// the asset type first, then the status.
pub open spec fn to_escrow_outcome(state: EscrowState, compressed_variant: bool) -> Option<
    EscrowError,
> {
    if state.is_compressed != compressed_variant {
        Some(EscrowError::WrongNftType)
    } else if state.status != EscrowStatus::Registered {
        Some(EscrowError::InvalidStatus)
    } else {
        None
    }
}

/// Outcome of the checks of a transfer out of custody, in their order:
/// the asset type, the status, then the caller (the platform authority for a
/// sale, the owner for a return).
pub open spec fn from_escrow_outcome(
    state: EscrowState,
    global: GlobalState,
    caller: Pubkey,
    is_sale: bool,
    compressed_variant: bool,
) -> Option<EscrowError> {
    if state.is_compressed != compressed_variant {
        Some(EscrowError::WrongNftType)
    } else if state.status != EscrowStatus::InEscrow {
        Some(EscrowError::InvalidStatus)
    } else if is_sale && caller@ != global.authority@ {
        Some(EscrowError::Unauthorized)
    } else if !is_sale && caller@ != state.owner@ {
        Some(EscrowError::Unauthorized)
    } else {
        None
    }
}

/// The status a release out of custody leads to.
pub open spec fn release_status(is_sale: bool) -> EscrowStatus {
    if is_sale {
        EscrowStatus::Sold
    } else {
        EscrowStatus::Returned
    }
}

fn check_to_escrow(state: &EscrowState, compressed_variant: bool) -> (r: Result<(), EscrowError>)
    ensures
        match to_escrow_outcome(*state, compressed_variant) {
            Some(e) => r == Err::<(), EscrowError>(e),
            None => r is Ok,
        },
{
    if state.is_compressed != compressed_variant {
        return Err(EscrowError::WrongNftType);
    }
    if state.status != EscrowStatus::Registered {
        return Err(EscrowError::InvalidStatus);
    }
    Ok(())
}

fn check_from_escrow(
    state: &EscrowState,
    global: &GlobalState,
    caller: &Pubkey,
    is_sale: bool,
    compressed_variant: bool,
) -> (r: Result<(), EscrowError>)
    ensures
        match from_escrow_outcome(*state, *global, *caller, is_sale, compressed_variant) {
            Some(e) => r == Err::<(), EscrowError>(e),
            None => r is Ok,
        },
{
    if state.is_compressed != compressed_variant {
        return Err(EscrowError::WrongNftType);
    }
    if state.status != EscrowStatus::InEscrow {
        return Err(EscrowError::InvalidStatus);
    }
    if is_sale {
        if !is_platform_authority(global, caller) {
            return Err(EscrowError::Unauthorized);
        }
    } else {
        if !is_owner(state, caller) {
            return Err(EscrowError::Unauthorized);
        }
    }
    Ok(())
}

/// Checks a direct (token-account) transfer into custody. On success the plan
/// moves the asset under the delegate capability and leads to `InEscrow`.
pub fn transfer_standard_nft_to_escrow(state: &EscrowState) -> (r: Result<TransferPlan, EscrowError>)
    ensures
        match to_escrow_outcome(*state, false) {
            Some(e) => r == Err::<TransferPlan, EscrowError>(e),
            None => r is Ok && plan_is(
                r->Ok_0,
                *state,
                Capability::Delegate,
                None,
                EscrowStatus::InEscrow,
            ),
        },
        r is Ok ==> legal_edge(state.status, r->Ok_0.spec_new_status()),
{
    check_to_escrow(state, false)?;
    Ok(
        TransferPlan {
            owner: state.owner,
            mint: state.mint,
            capability: Capability::Delegate,
            leaf_proof: None,
            from_status: state.status,
            new_status: EscrowStatus::InEscrow,
        },
    )
}

/// Checks a proof-based (compressed) transfer into custody. On success the plan
/// carries the commitment, moves the asset under the delegate capability and
/// leads to `InEscrow`.
pub fn transfer_compressed_nft_to_escrow(
    state: &EscrowState,
    root: [u8; 32],
    data_hash: [u8; 32],
    creator_hash: [u8; 32],
    nonce: u64,
    index: u32,
) -> (r: Result<TransferPlan, EscrowError>)
    ensures
        match to_escrow_outcome(*state, true) {
            Some(e) => r == Err::<TransferPlan, EscrowError>(e),
            None => r is Ok && plan_is(
                r->Ok_0,
                *state,
                Capability::Delegate,
                Some(LeafProof { root, data_hash, creator_hash, nonce, index }),
                EscrowStatus::InEscrow,
            ),
        },
        r is Ok ==> legal_edge(state.status, r->Ok_0.spec_new_status()),
{
    check_to_escrow(state, true)?;
    Ok(
        TransferPlan {
            owner: state.owner,
            mint: state.mint,
            capability: Capability::Delegate,
            leaf_proof: Some(LeafProof { root, data_hash, creator_hash, nonce, index }),
            from_status: state.status,
            new_status: EscrowStatus::InEscrow,
        },
    )
}

/// Checks a direct transfer out of custody: a sale (`is_sale`, by the platform
/// authority) or a return (by the owner). On success the plan moves the asset
/// under the escrow capability and leads to `Sold` or `Returned`.
pub fn transfer_standard_nft_from_escrow(
    state: &EscrowState,
    global: &GlobalState,
    caller: &Pubkey,
    is_sale: bool,
) -> (r: Result<TransferPlan, EscrowError>)
    ensures
        match from_escrow_outcome(*state, *global, *caller, is_sale, false) {
            Some(e) => r == Err::<TransferPlan, EscrowError>(e),
            None => r is Ok && plan_is(
                r->Ok_0,
                *state,
                Capability::Escrow,
                None,
                release_status(is_sale),
            ),
        },
        r is Ok ==> legal_edge(state.status, r->Ok_0.spec_new_status()),
{
    check_from_escrow(state, global, caller, is_sale, false)?;
    let new_status = if is_sale {
        EscrowStatus::Sold
    } else {
        EscrowStatus::Returned
    };
    Ok(
        TransferPlan {
            owner: state.owner,
            mint: state.mint,
            capability: Capability::Escrow,
            leaf_proof: None,
            from_status: state.status,
            new_status,
        },
    )
}

/// Checks a proof-based transfer out of custody, with the same rules as the
/// direct one; the plan carries the commitment.
pub fn transfer_compressed_nft_from_escrow(
    state: &EscrowState,
    global: &GlobalState,
    caller: &Pubkey,
    is_sale: bool,
    leaf_proof: LeafProof,
) -> (r: Result<TransferPlan, EscrowError>)
    ensures
        match from_escrow_outcome(*state, *global, *caller, is_sale, true) {
            Some(e) => r == Err::<TransferPlan, EscrowError>(e),
            None => r is Ok && plan_is(
                r->Ok_0,
                *state,
                Capability::Escrow,
                Some(leaf_proof),
                release_status(is_sale),
            ),
        },
        r is Ok ==> legal_edge(state.status, r->Ok_0.spec_new_status()),
{
    check_from_escrow(state, global, caller, is_sale, true)?;
    let new_status = if is_sale {
        EscrowStatus::Sold
    } else {
        EscrowStatus::Returned
    };
    Ok(
        TransferPlan {
            owner: state.owner,
            mint: state.mint,
            capability: Capability::Escrow,
            leaf_proof: Some(leaf_proof),
            from_status: state.status,
            new_status,
        },
    )
}

/// Using the variant that does not match the record's asset type is always
/// refused with `WrongNftType`, whatever the status, the caller or the kind of
/// release; the checks take the record by shared reference, so it stays as it was.
pub proof fn lemma_wrong_variant_refused(
    state: EscrowState,
    global: GlobalState,
    caller: Pubkey,
    is_sale: bool,
)
    ensures
        to_escrow_outcome(state, !state.is_compressed) == Some(EscrowError::WrongNftType),
        from_escrow_outcome(state, global, caller, is_sale, !state.is_compressed) == Some(
            EscrowError::WrongNftType,
        ),
{
}

/// A sale is accepted only from the platform authority; from anyone else, on an
/// asset in custody and with the matching variant, it is refused with `Unauthorized`.
pub proof fn lemma_sale_requires_authority(
    state: EscrowState,
    global: GlobalState,
    caller: Pubkey,
    compressed_variant: bool,
)
    ensures
        from_escrow_outcome(state, global, caller, true, compressed_variant) is None
            ==> caller@ == global.authority@,
        state.is_compressed == compressed_variant && state.status == EscrowStatus::InEscrow
            && caller@ != global.authority@ ==> from_escrow_outcome(
            state,
            global,
            caller,
            true,
            compressed_variant,
        ) == Some(EscrowError::Unauthorized),
{
}

/// A return is accepted only from the record's owner; from anyone else, on an
/// asset in custody and with the matching variant, it is refused with `Unauthorized`.
pub proof fn lemma_return_requires_owner(
    state: EscrowState,
    global: GlobalState,
    caller: Pubkey,
    compressed_variant: bool,
)
    ensures
        from_escrow_outcome(state, global, caller, false, compressed_variant) is None
            ==> caller@ == state.owner@,
        state.is_compressed == compressed_variant && state.status == EscrowStatus::InEscrow
            && caller@ != state.owner@ ==> from_escrow_outcome(
            state,
            global,
            caller,
            false,
            compressed_variant,
        ) == Some(EscrowError::Unauthorized),
{
}

/// Every accepted check leads along a legal edge: into custody from
/// `Registered`, out of custody from `InEscrow` to `Sold` or `Returned`.
pub proof fn lemma_accepted_checks_follow_edges(
    state: EscrowState,
    global: GlobalState,
    caller: Pubkey,
    is_sale: bool,
    compressed_variant: bool,
)
    ensures
        to_escrow_outcome(state, compressed_variant) is None ==> legal_edge(
            state.status,
            EscrowStatus::InEscrow,
        ),
        from_escrow_outcome(state, global, caller, is_sale, compressed_variant) is None
            ==> legal_edge(state.status, release_status(is_sale)),
{
}

} // verus!
