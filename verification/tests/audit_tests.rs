use mwc_core::consensus::calc_mwc_block_overage;
use mwc_core::global;
use mwc_core::global::ChainTypes;
use mwc_util::secp::key::SecretKey;
use mwc_util::secp::ContextFlag;
use mwc_util::secp::Secp256k1;

use supply_verifier::commit;
use supply_verifier::conclude_audit;
use supply_verifier::evaluate_equation;
use supply_verifier::expand_home;
use supply_verifier::require_chain_path;
use supply_verifier::sum_outputs;
use supply_verifier::Commitment;
use supply_verifier::FetchOutcome;
use supply_verifier::HeaderInfo;
use supply_verifier::KernelWalk;
use supply_verifier::SupplyError;

fn scalar(fill: u8) -> Vec<u8> {
    vec![fill; 32]
}

fn add_scalars(a: &[u8], b: &[u8]) -> Vec<u8> {
    let secp = Secp256k1::with_caps(ContextFlag::Commit);
    let mut x = SecretKey::from_slice(&secp, a).unwrap();
    let y = SecretKey::from_slice(&secp, b).unwrap();
    x.add_assign(&secp, &y).unwrap();
    x.0.to_vec()
}

fn hash_of(height: u64) -> Vec<u8> {
    vec![height as u8; 32]
}

fn tip_at(height: u64, offset: &[u8]) -> HeaderInfo {
    HeaderInfo {
        height,
        hash: hash_of(height),
        total_kernel_offset: offset.to_vec(),
    }
}

#[test]
fn traversal_visits_every_block_and_output_once() {
    let kernel = commit(0, &scalar(9)).unwrap();
    let kernel_bytes = kernel.bytes().clone();
    let tip = tip_at(3, &scalar(5));
    let mut walk = KernelWalk::new(&tip);
    walk.step(FetchOutcome::Block {
        kernel_excesses: vec![kernel.duplicate(), kernel.duplicate()],
        parent_hash: Some(hash_of(2)),
    })
    .unwrap();
    walk.step(FetchOutcome::Block {
        kernel_excesses: vec![],
        parent_hash: Some(hash_of(1)),
    })
    .unwrap();
    walk.step(FetchOutcome::Block {
        kernel_excesses: vec![kernel.duplicate()],
        parent_hash: Some(hash_of(0)),
    })
    .unwrap();
    assert!(!walk.done);
    walk.step(FetchOutcome::Block {
        kernel_excesses: vec![kernel],
        parent_hash: None,
    })
    .unwrap();
    assert!(walk.done);
    assert_eq!(walk.blocks_visited, 4);
    assert_eq!(walk.excesses.len(), 4);
    for excess in &walk.excesses {
        assert_eq!(excess.bytes(), &kernel_bytes);
    }

    let outputs = vec![
        commit(1, &scalar(1)).unwrap(),
        commit(2, &scalar(2)).unwrap(),
        commit(3, &scalar(3)).unwrap(),
    ];
    let (_, count) = sum_outputs(&outputs).unwrap();
    assert_eq!(count, 3);
}

#[test]
fn equation_closes_on_balanced_inputs() {
    let k = scalar(9);
    let o = scalar(5);
    let b = add_scalars(&k, &o);
    let lhs = commit(10, &b).unwrap();
    let excess_sum = commit(0, &k).unwrap();
    let verdict = evaluate_equation(&lhs, &excess_sum, &o, 10).unwrap();
    assert!(verdict.valid);
    assert_eq!(verdict.lhs_hex, verdict.rhs_hex);
}

#[test]
fn equation_fails_on_wrong_reward() {
    let k = scalar(9);
    let o = scalar(5);
    let b = add_scalars(&k, &o);
    let lhs = commit(10, &b).unwrap();
    let excess_sum = commit(0, &k).unwrap();
    let verdict = evaluate_equation(&lhs, &excess_sum, &o, 11).unwrap();
    assert!(!verdict.valid);
    assert_ne!(verdict.lhs_hex, verdict.rhs_hex);
}

#[test]
fn equation_rejects_invalid_offset_scalar() {
    let lhs = commit(10, &scalar(1)).unwrap();
    let excess_sum = commit(0, &scalar(2)).unwrap();
    let r = evaluate_equation(&lhs, &excess_sum, &scalar(0), 10);
    assert!(matches!(r, Err(SupplyError::MalformedData)));
}

#[test]
fn valid_synthetic_chain_passes_audit() {
    global::set_local_chain_type(ChainTypes::Mainnet);
    let total_reward = calc_mwc_block_overage(2, true);

    let k = scalar(9);
    let o = scalar(5);
    let b = add_scalars(&k, &o);

    let tip = tip_at(2, &o);
    let mut walk = KernelWalk::new(&tip);
    walk.step(FetchOutcome::Block {
        kernel_excesses: vec![commit(0, &k).unwrap()],
        parent_hash: Some(hash_of(1)),
    })
    .unwrap();
    walk.step(FetchOutcome::Block {
        kernel_excesses: vec![],
        parent_hash: Some(hash_of(0)),
    })
    .unwrap();
    walk.step(FetchOutcome::Block {
        kernel_excesses: vec![],
        parent_hash: None,
    })
    .unwrap();
    assert!(walk.done);

    // One unspent output holds the whole issuance, blinded by the kernel
    // scalar plus the chain offset, so the equation closes exactly.
    let outputs = vec![commit(total_reward, &b).unwrap()];
    let report = conclude_audit(&outputs, &walk, &tip).unwrap();
    assert_eq!(report.tip_height, 2);
    assert_eq!(report.utxo_count, 1);
    assert_eq!(report.kernel_count, 1);
    assert_eq!(report.total_reward, total_reward);
    assert_eq!(report.lhs_hex, report.rhs_hex);
}

#[test]
fn genesis_only_chain_passes_audit() {
    global::set_local_chain_type(ChainTypes::Mainnet);
    let total_reward = calc_mwc_block_overage(0, true);

    let k = scalar(3);
    let o = scalar(8);
    let b = add_scalars(&k, &o);

    let tip = tip_at(0, &o);
    let mut walk = KernelWalk::new(&tip);
    walk.step(FetchOutcome::Block {
        kernel_excesses: vec![commit(0, &k).unwrap()],
        parent_hash: None,
    })
    .unwrap();
    assert!(walk.done);
    assert_eq!(walk.blocks_visited, 1);

    let outputs = vec![commit(total_reward, &b).unwrap()];
    let report = conclude_audit(&outputs, &walk, &tip).unwrap();
    assert_eq!(report.tip_height, 0);
    assert_eq!(report.total_reward, total_reward);
}

#[test]
fn tampered_chain_reports_mismatch() {
    global::set_local_chain_type(ChainTypes::Mainnet);
    let total_reward = calc_mwc_block_overage(2, true);

    let k = scalar(9);
    let o = scalar(5);
    let b = add_scalars(&k, &o);

    let tip = tip_at(2, &o);
    let mut walk = KernelWalk::new(&tip);
    walk.step(FetchOutcome::Block {
        kernel_excesses: vec![commit(0, &k).unwrap()],
        parent_hash: Some(hash_of(1)),
    })
    .unwrap();
    walk.step(FetchOutcome::Block {
        kernel_excesses: vec![],
        parent_hash: Some(hash_of(0)),
    })
    .unwrap();
    walk.step(FetchOutcome::Block {
        kernel_excesses: vec![],
        parent_hash: None,
    })
    .unwrap();

    // Inject one extra unspent output with no kernel or reward behind it.
    let outputs = vec![
        commit(total_reward, &b).unwrap(),
        commit(1, &scalar(4)).unwrap(),
    ];
    match conclude_audit(&outputs, &walk, &tip) {
        Err(SupplyError::Mismatch { lhs_hex, rhs_hex }) => {
            assert_ne!(lhs_hex, rhs_hex);
            assert_eq!(lhs_hex.len(), 66);
            assert_eq!(rhs_hex.len(), 66);
        }
        other => panic!("expected a supply mismatch, got {:?}", other.is_ok()),
    }
}

#[test]
fn missing_block_aborts_with_its_height() {
    let tip = tip_at(2, &scalar(5));
    let mut walk = KernelWalk::new(&tip);
    walk.step(FetchOutcome::Block {
        kernel_excesses: vec![commit(0, &scalar(9)).unwrap()],
        parent_hash: Some(hash_of(1)),
    })
    .unwrap();
    let r = walk.step(FetchOutcome::BlockMissing);
    assert!(matches!(r, Err(SupplyError::NotSynced { height: 1 })));
    assert!(!walk.done);
    assert_eq!(walk.blocks_visited, 1);
}

#[test]
fn missing_parent_header_aborts_with_its_height() {
    let tip = tip_at(2, &scalar(5));
    let mut walk = KernelWalk::new(&tip);
    let r = walk.step(FetchOutcome::ParentMissing);
    assert!(matches!(r, Err(SupplyError::NotSynced { height: 1 })));
    assert!(!walk.done);
    assert_eq!(walk.blocks_visited, 0);
}

#[test]
fn home_shorthand_expands() {
    let path = b"~/.mwc/main/chain_data".to_vec();
    let home = b"/home/operator".to_vec();
    let expanded = expand_home(&path, Some(&home));
    assert_eq!(expanded, b"/home/operator/.mwc/main/chain_data".to_vec());
}

#[test]
fn bare_home_shorthand_expands_to_home_root() {
    let path = b"~/".to_vec();
    let home = b"/home/operator".to_vec();
    assert_eq!(expand_home(&path, Some(&home)), b"/home/operator/".to_vec());
}

#[test]
fn plain_path_stays_unchanged() {
    let path = b"/var/lib/mwc".to_vec();
    let home = b"/home/operator".to_vec();
    assert_eq!(expand_home(&path, Some(&home)), path);
    let shorthand = b"~/.mwc".to_vec();
    assert_eq!(expand_home(&shorthand, None), shorthand);
}

#[test]
fn missing_chain_path_is_a_configuration_error() {
    assert!(matches!(
        require_chain_path(false),
        Err(SupplyError::Configuration)
    ));
    assert!(require_chain_path(true).is_ok());
}
