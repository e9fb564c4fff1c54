use rusk_vm::digest::Digest;
use rusk_vm::state::{ContractState, NetworkState, Storage};
use rusk_vm::types::H256;

#[test]
fn deploy_is_content_addressed() {
    let mut net = NetworkState::new();
    let a = net.deploy(vec![0, 97, 115, 109]);
    let b = net.deploy(vec![0, 97, 115, 109]);
    assert!(a == b);
    assert!(a == vec![0u8, 97, 115, 109].digest());
    let c = net.deploy(vec![0, 97, 115, 110]);
    assert!(a != c);
    let state = net.get_contract_state(&a).unwrap();
    assert_eq!(state.code(), &[0, 97, 115, 109][..]);
    assert_eq!(state.balance(), 0);
    assert_eq!(state.get(b"k"), None);
}

#[test]
fn lookup_of_unknown_id() {
    let net = NetworkState::new();
    assert!(net.get_contract_state(&H256::zero()).is_none());
    assert!(net.genesis_id().is_none());
}

#[test]
fn genesis_contract_is_endowed() {
    let code = vec![1u8, 2, 3];
    let net = NetworkState::genesis(code.clone(), 1_000_000_000);
    let id = net.genesis_id().unwrap();
    assert!(id == code.digest());
    assert_eq!(net.get_contract_state(&id).unwrap().balance(), 1_000_000_000);
}

#[test]
fn storage_insert_get_remove() {
    let mut s = Storage::new();
    assert_eq!(s.get(b"a"), None);
    s.insert(b"a".to_vec(), b"1".to_vec());
    s.insert(b"b".to_vec(), b"2".to_vec());
    s.insert(b"a".to_vec(), b"3".to_vec());
    assert_eq!(s.get(b"a"), Some(b"3".to_vec()));
    assert_eq!(s.get(b"b"), Some(b"2".to_vec()));
    s.remove(b"a");
    assert_eq!(s.get(b"a"), None);
    assert_eq!(s.get(b"b"), Some(b"2".to_vec()));
    s.remove(b"missing");
    let copy = s.duplicate();
    assert_eq!(copy.get(b"b"), Some(b"2".to_vec()));
}

#[test]
fn write_storage_of_one_contract() {
    let mut net = NetworkState::new();
    let a = net.deploy(vec![1]);
    let b = net.deploy(vec![2]);
    net.write_storage(&a, b"key".to_vec(), Some(b"value".to_vec()));
    assert_eq!(net.get_contract_state(&a).unwrap().get(b"key"), Some(b"value".to_vec()));
    assert_eq!(net.get_contract_state(&b).unwrap().get(b"key"), None);
    let copy = net.duplicate();
    net.write_storage(&a, b"key".to_vec(), None);
    assert_eq!(net.get_contract_state(&a).unwrap().get(b"key"), None);
    assert_eq!(copy.get_contract_state(&a).unwrap().get(b"key"), Some(b"value".to_vec()));
}

#[test]
fn contract_state_copy() {
    let c = ContractState::new(vec![9, 9], 5);
    let d = c.duplicate();
    assert_eq!(d.code(), &[9, 9][..]);
    assert_eq!(d.balance(), 5);
}
