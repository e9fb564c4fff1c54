use rusk_vm::call_context::CallContext;
use rusk_vm::error::VMError;
use rusk_vm::gas::GasMeter;
use rusk_vm::ops::{
    argument, balance, call_contract_begin, call_contract_end, charge_host_call, delete_storage,
    gas, get_storage, opcode, ret, self_hash, set_storage,
};
use rusk_vm::resolver::{HostOp, Schedule};
use rusk_vm::state::NetworkState;
use rusk_vm::types::H256;

fn network() -> (NetworkState, H256, H256) {
    let mut net = NetworkState::new();
    let a = net.deploy(b"caller".to_vec());
    let b = net.deploy(b"callee".to_vec());
    (net, a, b)
}

/// A memory with `bytes` at offset 0 and zeros after them.
fn memory(bytes: &[u8], size: usize) -> Vec<u8> {
    let mut m = bytes.to_vec();
    m.resize(size, 0);
    m
}

#[test]
fn root_call_commits_writes_on_success() {
    let (mut net, a, _) = network();
    let mut ctx = CallContext::root(&net, &a, vec![7, 8], GasMeter::with_limit(1_000), 8).unwrap();
    let mem = memory(b"keyvalue", 64);
    set_storage(&mut ctx, &mem, 0, 3, 3, 5).unwrap();
    ret(&mut ctx, &mem, 3, 5).unwrap();
    // the network is untouched until the root call ends
    assert_eq!(net.get_contract_state(&a).unwrap().get(b"key"), None);
    let (result, meter) = ctx.finish(&mut net, Ok(()));
    assert_eq!(result, Ok(b"value".to_vec()));
    assert_eq!(meter.gas_left(), 1_000);
    assert_eq!(net.get_contract_state(&a).unwrap().get(b"key"), Some(b"value".to_vec()));
}

#[test]
fn root_call_failure_commits_nothing() {
    let (mut net, a, _) = network();
    let mut ctx = CallContext::root(&net, &a, vec![], GasMeter::with_limit(1_000), 8).unwrap();
    let mem = memory(b"keyvalue", 64);
    set_storage(&mut ctx, &mem, 0, 3, 3, 5).unwrap();
    let (result, _) = ctx.finish(&mut net, Err(VMError::Trap));
    assert_eq!(result, Err(VMError::Trap));
    assert_eq!(net.get_contract_state(&a).unwrap().get(b"key"), None);
}

#[test]
fn root_call_of_unknown_contract() {
    let (net, _, _) = network();
    let r = CallContext::root(&net, &H256::zero(), vec![], GasMeter::with_limit(10), 8);
    assert!(matches!(r, Err(VMError::UnknownContract)));
}

#[test]
fn nested_call_into_unknown_contract_rolls_back_everything() {
    let (mut net, a, _) = network();
    let mut ctx = CallContext::root(&net, &a, vec![], GasMeter::with_limit(1_000), 8).unwrap();
    let mut mem = memory(b"keyvalue", 128);
    set_storage(&mut ctx, &mem, 0, 3, 3, 5).unwrap();
    // 32 bytes of 0xee at offset 64 name no contract
    for byte in mem[64..96].iter_mut() {
        *byte = 0xee;
    }
    let r = call_contract_begin(&mut ctx, &mem, 64, 0, 0);
    assert_eq!(r, Err(VMError::UnknownContract));
    let (result, _) = ctx.finish(&mut net, r);
    assert_eq!(result, Err(VMError::UnknownContract));
    assert_eq!(net.get_contract_state(&a).unwrap().get(b"key"), None);
}

#[test]
fn nested_call_writes_are_seen_after_success() {
    let (mut net, a, b) = network();
    let mut ctx = CallContext::root(&net, &a, vec![], GasMeter::with_limit(1_000), 8).unwrap();
    let mut parent = memory(b.as_bytes(), 128);
    parent[32..36].copy_from_slice(b"args");
    call_contract_begin(&mut ctx, &parent, 0, 32, 4).unwrap();
    assert!(ctx.self_id() == b);
    assert_eq!(ctx.arguments(), b"args");
    let child = memory(b"kv", 16);
    set_storage(&mut ctx, &child, 0, 1, 1, 1).unwrap();
    ret(&mut ctx, &child, 1, 1).unwrap();
    gas(&mut ctx, 100).unwrap();
    let n = call_contract_end(&mut ctx, &mut parent, 100, Ok(())).unwrap();
    assert_eq!(n, 1);
    assert_eq!(parent[100], b'v');
    assert!(ctx.self_id() == a);
    assert_eq!(ctx.gas_left(), 900);
    let (result, _) = ctx.finish(&mut net, Ok(()));
    assert!(result.is_ok());
    assert_eq!(net.get_contract_state(&b).unwrap().get(b"k"), Some(b"v".to_vec()));
}

#[test]
fn nested_call_writes_are_dropped_after_failure_but_gas_is_spent() {
    let (mut net, a, b) = network();
    let mut ctx = CallContext::root(&net, &a, vec![], GasMeter::with_limit(1_000), 8).unwrap();
    let mut parent = memory(b.as_bytes(), 128);
    call_contract_begin(&mut ctx, &parent, 0, 32, 0).unwrap();
    let child = memory(b"kv", 16);
    set_storage(&mut ctx, &child, 0, 1, 1, 1).unwrap();
    assert_eq!(ctx.storage_get(b"k"), Some(b"v".to_vec()));
    gas(&mut ctx, 300).unwrap();
    let r = call_contract_end(&mut ctx, &mut parent, 100, Err(VMError::Trap));
    assert_eq!(r, Err(VMError::Trap));
    assert_eq!(ctx.gas_left(), 700);
    // the caller reads its callee's storage through a nested call again
    call_contract_begin(&mut ctx, &parent, 0, 32, 0).unwrap();
    assert_eq!(ctx.storage_get(b"k"), None);
    let r = call_contract_end(&mut ctx, &mut parent, 100, Ok(())).unwrap();
    assert_eq!(r, 0);
    let (result, _) = ctx.finish(&mut net, Ok(()));
    assert!(result.is_ok());
    assert_eq!(net.get_contract_state(&b).unwrap().get(b"k"), None);
}

#[test]
fn call_depth_is_bounded() {
    let (net, a, _) = network();
    let mut ctx = CallContext::root(&net, &a, vec![], GasMeter::with_limit(1_000), 2).unwrap();
    let mem = memory(a.as_bytes(), 64);
    assert_eq!(call_contract_begin(&mut ctx, &mem, 0, 0, 0), Ok(()));
    assert_eq!(
        call_contract_begin(&mut ctx, &mem, 0, 0, 0),
        Err(VMError::MaxCallDepthExceeded)
    );
}

#[test]
fn out_of_range_memory_is_invalid_arguments() {
    let (net, a, _) = network();
    let mut ctx = CallContext::root(&net, &a, vec![1, 2, 3], GasMeter::with_limit(1_000), 8).unwrap();
    let mut mem = memory(b"", 16);
    assert_eq!(set_storage(&mut ctx, &mem, 10, 7, 0, 1), Err(VMError::InvalidArguments));
    assert_eq!(delete_storage(&mut ctx, &mem, 17, 0), Err(VMError::InvalidArguments));
    assert_eq!(ret(&mut ctx, &mem, u32::MAX, 2), Err(VMError::InvalidArguments));
    assert_eq!(argument(&ctx, &mut mem, 14), Err(VMError::InvalidArguments));
    assert_eq!(self_hash(&ctx, &mut mem, 0), Err(VMError::InvalidArguments));
    assert_eq!(balance(&ctx, &mut mem, 1), Err(VMError::InvalidArguments));
    assert_eq!(
        call_contract_begin(&mut ctx, &mem, 0, 0, 0),
        Err(VMError::InvalidArguments)
    );
}

#[test]
fn buffers_and_introspection() {
    let code = b"genesis".to_vec();
    let net = NetworkState::genesis(code, 0x0102);
    let id = net.genesis_id().unwrap();
    let mut ctx = CallContext::root(&net, &id, vec![1, 2, 3], GasMeter::with_limit(1_000), 8).unwrap();
    let mut mem = memory(b"", 64);
    argument(&ctx, &mut mem, 4).unwrap();
    assert_eq!(&mem[3..8], &[0, 1, 2, 3, 0]);
    self_hash(&ctx, &mut mem, 32).unwrap();
    assert_eq!(&mem[32..64], id.as_bytes());
    balance(&ctx, &mut mem, 8).unwrap();
    assert_eq!(&mem[8..24], &0x0102u128.to_le_bytes());
}

#[test]
fn get_and_delete_storage_through_memory() {
    let (net, a, _) = network();
    let mut ctx = CallContext::root(&net, &a, vec![], GasMeter::with_limit(1_000), 8).unwrap();
    let mut mem = memory(b"keyvalue", 64);
    assert_eq!(get_storage(&ctx, &mut mem, 0, 3, 32), Ok(0));
    set_storage(&mut ctx, &mem, 0, 3, 3, 5).unwrap();
    assert_eq!(get_storage(&ctx, &mut mem, 0, 3, 32), Ok(5));
    assert_eq!(&mem[32..37], b"value");
    assert_eq!(get_storage(&ctx, &mut mem, 0, 3, 62), Err(VMError::InvalidArguments));
    delete_storage(&mut ctx, &mem, 0, 3).unwrap();
    assert_eq!(get_storage(&ctx, &mut mem, 0, 3, 40), Ok(0));
}

#[test]
fn host_calls_are_charged() {
    let (net, a, _) = network();
    let mut ctx = CallContext::root(&net, &a, vec![], GasMeter::with_limit(10), 8).unwrap();
    let schedule = Schedule::uniform(2, 4);
    assert_eq!(opcode(&schedule), 2);
    assert_eq!(schedule.host_cost(HostOp::BlsVerify), 4);
    assert_eq!(charge_host_call(&mut ctx, &schedule, HostOp::SetStorage), Ok(()));
    assert_eq!(charge_host_call(&mut ctx, &schedule, HostOp::GetStorage), Ok(()));
    assert_eq!(ctx.gas_left(), 2);
    assert_eq!(
        charge_host_call(&mut ctx, &schedule, HostOp::Debug),
        Err(VMError::OutOfGas)
    );
    assert_eq!(ctx.gas_left(), 0);
    assert_eq!(gas(&mut ctx, 1), Err(VMError::OutOfGas));
}

#[test]
fn debug_and_panic_messages() {
    let mem = memory("héllo".as_bytes(), 16);
    assert_eq!(rusk_vm::ops::Debug::call(&mem, 0, 6), Ok("héllo".to_string()));
    assert_eq!(rusk_vm::ops::Debug::call(&mem, 0, 2), Err(VMError::InvalidUtf8));
    assert_eq!(rusk_vm::ops::Debug::call(&mem, 10, 7), Err(VMError::InvalidArguments));
    assert_eq!(rusk_vm::ops::panic(&mem, 0, 6), (Some("héllo".to_string()), VMError::Trap));
    assert_eq!(rusk_vm::ops::panic(&mem, 0, 2), (None, VMError::Trap));
}
