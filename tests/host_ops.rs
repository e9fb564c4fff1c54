use dusk_bls12_381::BlsScalar;
use dusk_bls12_381_sign::{PublicKey, SecretKey, APK};
use dusk_bytes::Serializable;
use rusk_vm::bls::{verdict, BlsVerify};
use rusk_vm::error::VMError;
use rusk_vm::resolver::{resolve, HostOp, Schedule};

/// Memory laid out as signature (0..48), key (48..144), message (144..).
fn layout(sig: &[u8; 48], key: &[u8; 96], msg: &[u8]) -> Vec<u8> {
    let mut mem = Vec::new();
    mem.extend_from_slice(sig);
    mem.extend_from_slice(key);
    mem.extend_from_slice(msg);
    mem
}

fn keys(seed: u64) -> (SecretKey, PublicKey) {
    let sk = SecretKey::from(BlsScalar::from(seed));
    let pk = PublicKey::from(&sk);
    (sk, pk)
}

#[test]
fn bls_valid_signature_answers_one() {
    let (sk, pk) = keys(7);
    let msg = b"hello";
    let sig = sk.sign(&pk, msg);
    let mem = layout(&sig.to_bytes(), &APK::from(&pk).to_bytes(), msg);
    assert_eq!(BlsVerify::call(&mem, 0, 48, 144, 5), Ok(1));
}

#[test]
fn bls_mismatched_signature_answers_zero() {
    let (sk, pk) = keys(7);
    let (_, other) = keys(11);
    let sig = sk.sign(&pk, b"hello");
    let mem = layout(&sig.to_bytes(), &APK::from(&other).to_bytes(), b"hello");
    assert_eq!(BlsVerify::call(&mem, 0, 48, 144, 5), Ok(0));
    let mem = layout(&sig.to_bytes(), &APK::from(&pk).to_bytes(), b"jello");
    assert_eq!(BlsVerify::call(&mem, 0, 48, 144, 5), Ok(0));
}

#[test]
fn bls_malformed_input_is_invalid_arguments() {
    let (sk, pk) = keys(7);
    let sig = sk.sign(&pk, b"hello");
    let key = APK::from(&pk).to_bytes();
    let mem = layout(&[0xff; 48], &key, b"hello");
    assert_eq!(BlsVerify::call(&mem, 0, 48, 144, 5), Err(VMError::InvalidArguments));
    let mem = layout(&sig.to_bytes(), &[0xff; 96], b"hello");
    assert_eq!(BlsVerify::call(&mem, 0, 48, 144, 5), Err(VMError::InvalidArguments));
    let mem = layout(&sig.to_bytes(), &key, b"hello");
    assert_eq!(BlsVerify::call(&mem, 0, 48, 144, 6), Err(VMError::InvalidArguments));
    assert_eq!(BlsVerify::call(&mem, 100, 48, 144, 5), Err(VMError::InvalidArguments));
    assert_eq!(BlsVerify::call(&mem, 0, 100, 144, 5), Err(VMError::InvalidArguments));
}

#[test]
fn verdict_values() {
    assert_eq!(verdict(true), 1);
    assert_eq!(verdict(false), 0);
}

#[test]
fn import_table_names_and_ids() {
    let table = [
        ("panic", 0u32),
        ("debug", 1),
        ("set_storage", 2),
        ("get_storage", 3),
        ("delete_storage", 4),
        ("argument", 5),
        ("call_contract", 6),
        ("balance", 7),
        ("ret", 8),
        ("self_hash", 9),
        ("gas", 10),
        ("opcode", 11),
        ("call_contract_operation", 12),
        ("phoenix_store", 110),
        ("phoenix_verify", 120),
        ("phoenix_credit", 130),
        ("bls_verify", 140),
    ];
    for (name, id) in table {
        let op = resolve(name).unwrap();
        assert_eq!(op.id(), id);
        assert_eq!(op.name(), name);
        assert_eq!(HostOp::from_id(id), Some(op));
    }
    assert_eq!(resolve("nope"), None);
    assert_eq!(resolve("deb"), None);
    assert_eq!(HostOp::from_id(13), None);
    assert_eq!(HostOp::BlsVerify.arity(), 4);
    assert!(HostOp::GetStorage.returns_value());
    assert!(!HostOp::SetStorage.returns_value());
}

#[test]
fn schedule_costs() {
    let mut costs = [1u64; 17];
    costs[16] = 500;
    let s = Schedule::with_costs(3, costs);
    assert_eq!(s.host_cost(HostOp::BlsVerify), 500);
    assert_eq!(s.host_cost(HostOp::Panic), 1);
    assert_eq!(s.regular_op_cost(), 3);
    let d = Schedule::default();
    assert_eq!(d.host_cost(HostOp::Gas), 1);
    assert_eq!(d.regular_op_cost(), 1);
}
