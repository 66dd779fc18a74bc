use nft_escrow::{
    initialize, is_legal_edge, is_owner, is_platform_authority, transfer_compressed_nft_from_escrow,
    transfer_compressed_nft_to_escrow, transfer_standard_nft_from_escrow,
    transfer_standard_nft_to_escrow, BatchStatus, Capability, EscrowError, EscrowStatus,
    GlobalState, LeafProof, Pubkey, Registry,
};

fn key(b: u8) -> Pubkey {
    Pubkey::new_from_array([b; 32])
}

fn platform() -> GlobalState {
    let mut config = None;
    initialize(&mut config, key(9), 250, 254).unwrap();
    config.unwrap()
}

fn sample_proof() -> LeafProof {
    LeafProof { root: [1; 32], data_hash: [2; 32], creator_hash: [3; 32], nonce: 7, index: 4 }
}

fn register(reg: &mut Registry, owner: Pubkey, mint: Pubkey, compressed: bool) -> usize {
    reg.register_nft(owner, mint, "batch-1".to_string(), compressed, None, Some(5), 100, 1).unwrap();
    reg.find_record(&owner, &mint).unwrap()
}

#[test]
fn initialize_once_only() {
    let mut config = None;
    assert_eq!(initialize(&mut config, key(9), 250, 254), Ok(()));
    let g = config.unwrap();
    assert!(g.authority == key(9));
    assert_eq!(g.fee_basis_points, 250);
    assert_eq!(g.bump, 254);
    assert_eq!(initialize(&mut config, key(8), 10, 1), Err(EscrowError::AlreadyInitialized));
    let g = config.unwrap();
    assert!(g.authority == key(9));
    assert_eq!(g.fee_basis_points, 250);
}

#[test]
fn create_batch_twice_fails() {
    let mut reg = Registry::new();
    assert_eq!(reg.create_batch(key(1), "b".to_string(), 42, 3), Ok(()));
    assert_eq!(reg.batch_count(), 1);
    let b = reg.batch(0);
    assert_eq!(b.status, BatchStatus::Created);
    assert_eq!(b.created_at, 42);
    assert_eq!(b.total_nfts, 0);
    assert_eq!(b.processed_nfts, 0);
    assert_eq!(reg.create_batch(key(1), "b".to_string(), 43, 3), Err(EscrowError::AlreadyExists));
    assert_eq!(reg.batch_count(), 1);
    assert_eq!(reg.create_batch(key(2), "b".to_string(), 43, 3), Ok(()));
    assert_eq!(reg.create_batch(key(1), "c".to_string(), 43, 3), Ok(()));
    assert_eq!(reg.batch_count(), 3);
    assert_eq!(reg.find_batch(&key(1), &"c".to_string()), Some(2));
    assert_eq!(reg.find_batch(&key(3), &"c".to_string()), None);
}

#[test]
fn register_emits_event_and_stores_record() {
    let mut reg = Registry::new();
    let ev = reg
        .register_nft(key(1), key(2), "batch-1".to_string(), true, Some("uri".to_string()), Some(5), 100, 1)
        .unwrap();
    assert!(ev.owner == key(1));
    assert!(ev.mint == key(2));
    assert_eq!(ev.batch_id, "batch-1");
    assert!(ev.is_compressed);
    let r = reg.record(0);
    assert_eq!(r.status, EscrowStatus::Registered);
    assert_eq!(r.metadata_uri, Some("uri".to_string()));
    assert_eq!(r.price, Some(5));
    assert_eq!(r.created_at, 100);
}

#[test]
fn reregistering_fails_and_keeps_record() {
    let mut reg = Registry::new();
    let i = register(&mut reg, key(1), key(2), false);
    let err = reg.register_nft(key(1), key(2), "other".to_string(), true, None, None, 5, 2);
    assert_eq!(err.unwrap_err(), EscrowError::AlreadyExists);
    assert_eq!(reg.record_count(), 1);
    let r = reg.record(i);
    assert_eq!(r.batch_id, "batch-1");
    assert!(!r.is_compressed);
    assert_eq!(r.status, EscrowStatus::Registered);
    // a different owner of the same mint is a different record
    assert!(reg.register_nft(key(3), key(2), "x".to_string(), false, None, None, 5, 2).is_ok());
    assert_eq!(reg.record_count(), 2);
}

#[test]
fn direct_sale_flow() {
    let global = platform();
    let mut reg = Registry::new();
    let i = register(&mut reg, key(1), key(2), false);
    let plan = transfer_standard_nft_to_escrow(reg.record(i)).unwrap();
    assert_eq!(plan.capability(), Capability::Delegate);
    assert!(plan.leaf_proof().is_none());
    let ev = reg.complete_transfer(&plan).unwrap();
    assert_eq!(ev.new_status, EscrowStatus::InEscrow);
    assert!(ev.mint == key(2));
    assert_eq!(ev.batch_id, "batch-1");
    assert_eq!(reg.record(i).status, EscrowStatus::InEscrow);

    let plan = transfer_standard_nft_from_escrow(reg.record(i), &global, &key(9), true).unwrap();
    assert_eq!(plan.capability(), Capability::Escrow);
    let ev = reg.complete_transfer(&plan).unwrap();
    assert_eq!(ev.new_status, EscrowStatus::Sold);
    assert_eq!(reg.record(i).status, EscrowStatus::Sold);

    for caller in [key(9), key(1), key(5)] {
        for is_sale in [true, false] {
            let r = transfer_standard_nft_from_escrow(reg.record(i), &global, &caller, is_sale);
            assert_eq!(r.unwrap_err(), EscrowError::InvalidStatus);
        }
    }
    assert_eq!(reg.record(i).status, EscrowStatus::Sold);
}

#[test]
fn compressed_asset_rejects_direct_transfer() {
    let mut reg = Registry::new();
    let i = register(&mut reg, key(1), key(3), true);
    let r = transfer_standard_nft_to_escrow(reg.record(i));
    assert_eq!(r.unwrap_err(), EscrowError::WrongNftType);
    assert_eq!(reg.record(i).status, EscrowStatus::Registered);
}

#[test]
fn return_by_stranger_is_unauthorized() {
    let global = platform();
    let mut reg = Registry::new();
    let i = register(&mut reg, key(1), key(4), false);
    let plan = transfer_standard_nft_to_escrow(reg.record(i)).unwrap();
    reg.complete_transfer(&plan).unwrap();
    let r = transfer_standard_nft_from_escrow(reg.record(i), &global, &key(6), false);
    assert_eq!(r.unwrap_err(), EscrowError::Unauthorized);
    assert_eq!(reg.record(i).status, EscrowStatus::InEscrow);
    // the platform authority cannot return either
    let r = transfer_standard_nft_from_escrow(reg.record(i), &global, &key(9), false);
    assert_eq!(r.unwrap_err(), EscrowError::Unauthorized);
    // the owner can
    let plan = transfer_standard_nft_from_escrow(reg.record(i), &global, &key(1), false).unwrap();
    let ev = reg.complete_transfer(&plan).unwrap();
    assert_eq!(ev.new_status, EscrowStatus::Returned);
    assert_eq!(reg.record(i).status, EscrowStatus::Returned);
}

#[test]
fn sale_by_owner_is_unauthorized() {
    let global = platform();
    let mut reg = Registry::new();
    let i = register(&mut reg, key(1), key(4), false);
    let plan = transfer_standard_nft_to_escrow(reg.record(i)).unwrap();
    reg.complete_transfer(&plan).unwrap();
    let r = transfer_standard_nft_from_escrow(reg.record(i), &global, &key(1), true);
    assert_eq!(r.unwrap_err(), EscrowError::Unauthorized);
    assert_eq!(reg.record(i).status, EscrowStatus::InEscrow);
}

#[test]
fn compressed_flow_carries_proof() {
    let global = platform();
    let mut reg = Registry::new();
    let i = register(&mut reg, key(1), key(5), true);
    let p = sample_proof();
    let plan = transfer_compressed_nft_to_escrow(reg.record(i), p.root, p.data_hash, p.creator_hash, p.nonce, p.index)
        .unwrap();
    let carried = plan.leaf_proof().unwrap();
    assert_eq!(carried.root, [1; 32]);
    assert_eq!(carried.data_hash, [2; 32]);
    assert_eq!(carried.creator_hash, [3; 32]);
    assert_eq!(carried.nonce, 7);
    assert_eq!(carried.index, 4);
    reg.complete_transfer(&plan).unwrap();
    assert_eq!(reg.record(i).status, EscrowStatus::InEscrow);
    // the direct release is the wrong variant for this record
    let r = transfer_standard_nft_from_escrow(reg.record(i), &global, &key(9), true);
    assert_eq!(r.unwrap_err(), EscrowError::WrongNftType);
    let plan = transfer_compressed_nft_from_escrow(reg.record(i), &global, &key(9), true, p).unwrap();
    assert_eq!(plan.new_status(), EscrowStatus::Sold);
    reg.complete_transfer(&plan).unwrap();
    assert_eq!(reg.record(i).status, EscrowStatus::Sold);
}

#[test]
fn wrong_variant_wins_over_status() {
    let global = platform();
    let mut reg = Registry::new();
    let d = register(&mut reg, key(1), key(6), false);
    let p = sample_proof();
    let r = transfer_compressed_nft_to_escrow(reg.record(d), p.root, p.data_hash, p.creator_hash, p.nonce, p.index);
    assert_eq!(r.unwrap_err(), EscrowError::WrongNftType);
    // status Registered, not InEscrow: still the type is reported
    let r = transfer_compressed_nft_from_escrow(reg.record(d), &global, &key(9), true, p);
    assert_eq!(r.unwrap_err(), EscrowError::WrongNftType);
    let r = transfer_standard_nft_from_escrow(reg.record(d), &global, &key(9), true);
    assert_eq!(r.unwrap_err(), EscrowError::InvalidStatus);
}

#[test]
fn transfer_in_twice_is_invalid_status() {
    let mut reg = Registry::new();
    let i = register(&mut reg, key(1), key(7), false);
    let plan = transfer_standard_nft_to_escrow(reg.record(i)).unwrap();
    reg.complete_transfer(&plan).unwrap();
    let r = transfer_standard_nft_to_escrow(reg.record(i));
    assert_eq!(r.unwrap_err(), EscrowError::InvalidStatus);
    // replaying the already used plan is refused and changes nothing
    for _ in 0..3 {
        assert_eq!(reg.complete_transfer(&plan).unwrap_err(), EscrowError::InvalidStatus);
        assert_eq!(reg.record(i).status, EscrowStatus::InEscrow);
    }
}

#[test]
fn failed_commands_replayed_have_no_effect() {
    let global = platform();
    let mut reg = Registry::new();
    let i = register(&mut reg, key(1), key(8), true);
    for _ in 0..5 {
        assert!(transfer_standard_nft_to_escrow(reg.record(i)).is_err());
        assert!(transfer_standard_nft_from_escrow(reg.record(i), &global, &key(9), true).is_err());
        assert!(reg.register_nft(key(1), key(8), "z".to_string(), false, None, None, 1, 1).is_err());
        assert_eq!(reg.record_count(), 1);
        let r = reg.record(i);
        assert_eq!(r.status, EscrowStatus::Registered);
        assert!(r.is_compressed);
        assert_eq!(r.batch_id, "batch-1");
    }
}

#[test]
fn plan_for_missing_record_is_not_registered() {
    let mut reg = Registry::new();
    let i = register(&mut reg, key(1), key(2), false);
    let plan = transfer_standard_nft_to_escrow(reg.record(i)).unwrap();
    let mut other = Registry::new();
    assert_eq!(other.complete_transfer(&plan).unwrap_err(), EscrowError::NotRegistered);
    assert_eq!(other.record_count(), 0);
}

#[test]
fn signer_seeds_are_scoped_to_owner_and_mint() {
    let global = platform();
    let mut reg = Registry::new();
    let i = register(&mut reg, key(1), key(2), false);
    let plan = transfer_standard_nft_to_escrow(reg.record(i)).unwrap();
    let seeds = plan.signer_seeds();
    assert_eq!(seeds.len(), 3);
    assert_eq!(seeds[0], b"delegate".to_vec());
    assert_eq!(seeds[1], vec![1u8; 32]);
    assert_eq!(seeds[2], vec![2u8; 32]);
    reg.complete_transfer(&plan).unwrap();
    let plan = transfer_standard_nft_from_escrow(reg.record(i), &global, &key(1), false).unwrap();
    let seeds = plan.signer_seeds();
    assert_eq!(seeds[0], b"escrow".to_vec());
    assert_eq!(seeds[1], vec![1u8; 32]);
    assert_eq!(seeds[2], vec![2u8; 32]);
    assert!(plan.owner() == key(1));
    assert!(plan.mint() == key(2));
    assert_eq!(plan.from_status(), EscrowStatus::InEscrow);
}

#[test]
fn legal_edges_only() {
    let all = [
        EscrowStatus::Registered,
        EscrowStatus::InEscrow,
        EscrowStatus::Sold,
        EscrowStatus::Returned,
        EscrowStatus::Failed,
    ];
    let mut n = 0;
    for a in all {
        for b in all {
            if is_legal_edge(a, b) {
                n += 1;
            }
        }
    }
    assert_eq!(n, 3);
    assert!(is_legal_edge(EscrowStatus::Registered, EscrowStatus::InEscrow));
    assert!(is_legal_edge(EscrowStatus::InEscrow, EscrowStatus::Sold));
    assert!(is_legal_edge(EscrowStatus::InEscrow, EscrowStatus::Returned));
    assert!(!is_legal_edge(EscrowStatus::Sold, EscrowStatus::Returned));
    assert!(!is_legal_edge(EscrowStatus::InEscrow, EscrowStatus::Registered));
}

#[test]
fn authorization_predicates() {
    let global = platform();
    let mut reg = Registry::new();
    let i = register(&mut reg, key(1), key(2), false);
    assert!(is_owner(reg.record(i), &key(1)));
    assert!(!is_owner(reg.record(i), &key(9)));
    assert!(is_platform_authority(&global, &key(9)));
    assert!(!is_platform_authority(&global, &key(1)));
    let mut almost = [9u8; 32];
    almost[31] = 8;
    assert!(!is_platform_authority(&global, &Pubkey::new_from_array(almost)));
    assert!(key(3).same_as(&key(3)));
    assert_eq!(key(3).to_bytes(), [3u8; 32]);
}
