use vstd::bytes::{spec_u128_to_le_bytes, u128_to_le_bytes};
use vstd::prelude::*;
use vstd::utf8::{decode_utf8, valid_utf8};

use crate::call_context::{enter_result, world_after_leave, CallContext};
use crate::error::VMError;
use crate::memory::{in_bounds, read_slice, write_slice, written};
use crate::resolver::{HostOp, Schedule};
use crate::state::ContractView;
use crate::types::H256;

verus! {

/// The parts of a call context that a storage or buffer operation leaves as
/// they are.
pub open spec fn same_calls(a: &CallContext, b: &CallContext) -> bool {
    &&& a.saved() == b.saved()
    &&& a.depth() == b.depth()
    &&& a.max_depth() == b.max_depth()
    &&& a.current() == b.current()
    &&& a.args() == b.args()
    &&& a.meter() == b.meter()
}

/// Relies on `std::str::from_utf8`: it succeeds exactly on valid UTF-8 and
/// then holds the decoded characters.
#[verifier::external_body]
fn utf8_to_string(bytes: &[u8]) -> (r: Option<String>)
    ensures
        r is Some <==> valid_utf8(bytes@),
        r matches Some(s) ==> s@ == decode_utf8(bytes@),
{
    match std::str::from_utf8(bytes) {
        Ok(s) => Some(s.to_string()),
        Err(_) => None,
    }
}

/// Charges the price of a host capability before it runs.
pub fn charge_host_call(ctx: &mut CallContext, schedule: &Schedule, op: HostOp) -> (r: Result<
    (),
    VMError,
>)
    requires
        old(ctx).wf(),
    ensures
        final(ctx).wf(),
        final(ctx).world() == old(ctx).world(),
        final(ctx).ret() == old(ctx).ret(),
        final(ctx).meter().limit_spec() == old(ctx).meter().limit_spec(),
        schedule.host_cost_spec(op) <= old(ctx).meter().left_spec() ==> r is Ok
            && final(ctx).meter().left_spec() == old(ctx).meter().left_spec()
            - schedule.host_cost_spec(op),
        schedule.host_cost_spec(op) > old(ctx).meter().left_spec() ==> r == Err::<(), VMError>(
            VMError::OutOfGas,
        ) && final(ctx).meter().left_spec() == 0,
{
    ctx.charge(schedule.host_cost(op))
}

/// The `gas` capability: the metering instrumentation charges `amount`.
pub fn gas(ctx: &mut CallContext, amount: u32) -> (r: Result<(), VMError>)
    requires
        old(ctx).wf(),
    ensures
        final(ctx).wf(),
        final(ctx).world() == old(ctx).world(),
        final(ctx).ret() == old(ctx).ret(),
        final(ctx).meter().limit_spec() == old(ctx).meter().limit_spec(),
        amount <= old(ctx).meter().left_spec() ==> r is Ok && final(ctx).meter().left_spec()
            == old(ctx).meter().left_spec() - amount,
        amount > old(ctx).meter().left_spec() ==> r == Err::<(), VMError>(VMError::OutOfGas)
            && final(ctx).meter().left_spec() == 0,
{
    ctx.charge(amount as u64)
}

/// The `opcode` capability: the price of one metered instruction.
pub fn opcode(schedule: &Schedule) -> (r: u64)
    ensures
        r == schedule.regular_op_cost_spec(),
{
    schedule.regular_op_cost()
}

/// The `debug` capability.
pub struct Debug;

impl Debug {
    /// The UTF-8 message at `ofs .. ofs + len`, for the embedder's diagnostic
    /// sink.
    pub fn call(mem: &[u8], ofs: u32, len: u32) -> (r: Result<String, VMError>)
        ensures
            !in_bounds(mem@.len() as int, ofs as int, len as int) ==> r == Err::<String, VMError>(
                VMError::InvalidArguments,
            ),
            in_bounds(mem@.len() as int, ofs as int, len as int) ==> {
                let bytes = mem@.subrange(ofs as int, ofs + len);
                &&& !valid_utf8(bytes) ==> r == Err::<String, VMError>(VMError::InvalidUtf8)
                &&& valid_utf8(bytes) ==> r is Ok && r->Ok_0@ == decode_utf8(bytes)
            },
    {
        let bytes = read_slice(mem, ofs, len)?;
        match utf8_to_string(bytes.as_slice()) {
            Some(s) => Ok(s),
            None => Err(VMError::InvalidUtf8),
        }
    }
}

/// The `panic` capability: the contract aborts on purpose. The message is
/// decoded for the diagnostic sink when it can be; the call traps either way.
pub fn panic(mem: &[u8], ofs: u32, len: u32) -> (r: (Option<String>, VMError))
    ensures
        r.1 == VMError::Trap,
        r.0 is Some <==> in_bounds(mem@.len() as int, ofs as int, len as int) && valid_utf8(
            mem@.subrange(ofs as int, ofs + len),
        ),
        r.0 matches Some(s) ==> s@ == decode_utf8(mem@.subrange(ofs as int, ofs + len)),
{
    match Debug::call(mem, ofs, len) {
        Ok(s) => (Some(s), VMError::Trap),
        Err(_) => (None, VMError::Trap),
    }
}

/// The staged world after writing `key` of the innermost contract.
pub open spec fn world_with_write(
    ctx: &CallContext,
    key: Seq<u8>,
    value: Option<Seq<u8>>,
) -> Map<Seq<u8>, ContractView> {
    ctx.world().insert(
        ctx.current(),
        ContractView {
            storage: match value {
                Some(v) => ctx.world()[ctx.current()].storage.insert(key, v),
                None => ctx.world()[ctx.current()].storage.remove(key),
            },
            ..ctx.world()[ctx.current()]
        },
    )
}

/// The `set_storage` capability: stores the value at `val_ofs .. + val_len`
/// under the key at `key_ofs .. + key_len` in the running contract's staged
/// storage.
pub fn set_storage(
    ctx: &mut CallContext,
    mem: &[u8],
    key_ofs: u32,
    key_len: u32,
    val_ofs: u32,
    val_len: u32,
) -> (r: Result<(), VMError>)
    requires
        old(ctx).wf(),
    ensures
        final(ctx).wf(),
        same_calls(final(ctx), old(ctx)),
        final(ctx).ret() == old(ctx).ret(),
        r is Ok <==> in_bounds(mem@.len() as int, key_ofs as int, key_len as int) && in_bounds(
            mem@.len() as int,
            val_ofs as int,
            val_len as int,
        ),
        r matches Err(e) ==> e == VMError::InvalidArguments && final(ctx).world() == old(
            ctx,
        ).world(),
        r is Ok ==> final(ctx).world() == world_with_write(
            old(ctx),
            mem@.subrange(key_ofs as int, key_ofs + key_len),
            Some(mem@.subrange(val_ofs as int, val_ofs + val_len)),
        ),
{
    let key = read_slice(mem, key_ofs, key_len)?;
    let value = read_slice(mem, val_ofs, val_len)?;
    ctx.storage_write(key, Some(value));
    Ok(())
}

/// The `delete_storage` capability: removes the key at `key_ofs .. +
/// key_len` from the running contract's staged storage.
pub fn delete_storage(ctx: &mut CallContext, mem: &[u8], key_ofs: u32, key_len: u32) -> (r: Result<
    (),
    VMError,
>)
    requires
        old(ctx).wf(),
    ensures
        final(ctx).wf(),
        same_calls(final(ctx), old(ctx)),
        final(ctx).ret() == old(ctx).ret(),
        r is Ok <==> in_bounds(mem@.len() as int, key_ofs as int, key_len as int),
        r matches Err(e) ==> e == VMError::InvalidArguments && final(ctx).world() == old(
            ctx,
        ).world(),
        r is Ok ==> final(ctx).world() == world_with_write(
            old(ctx),
            mem@.subrange(key_ofs as int, key_ofs + key_len),
            None,
        ),
{
    let key = read_slice(mem, key_ofs, key_len)?;
    ctx.storage_write(key, None);
    Ok(())
}

/// The `get_storage` capability: writes the value stored under the key at
/// `key_ofs .. + key_len` to `out_ofs` and answers its length; a missing key
/// answers 0 and writes nothing.
pub fn get_storage(ctx: &CallContext, mem: &mut Vec<u8>, key_ofs: u32, key_len: u32, out_ofs: u32) -> (r:
    Result<u32, VMError>)
    requires
        ctx.wf(),
    ensures
        !in_bounds(old(mem)@.len() as int, key_ofs as int, key_len as int) ==> r == Err::<
            u32,
            VMError,
        >(VMError::InvalidArguments) && final(mem)@ == old(mem)@,
        in_bounds(old(mem)@.len() as int, key_ofs as int, key_len as int) ==> {
            let key = old(mem)@.subrange(key_ofs as int, key_ofs + key_len);
            let storage = ctx.world()[ctx.current()].storage;
            &&& !storage.contains_key(key) ==> r == Ok::<u32, VMError>(0) && final(mem)@ == old(
                mem,
            )@
            &&& storage.contains_key(key) && in_bounds(
                old(mem)@.len() as int,
                out_ofs as int,
                storage[key].len() as int,
            ) ==> r == Ok::<u32, VMError>(storage[key].len() as u32) && final(mem)@ == written(
                old(mem)@,
                out_ofs as int,
                storage[key],
            )
            &&& storage.contains_key(key) && !in_bounds(
                old(mem)@.len() as int,
                out_ofs as int,
                storage[key].len() as int,
            ) ==> r == Err::<u32, VMError>(VMError::InvalidArguments) && final(mem)@ == old(mem)@
        },
{
    let key = read_slice(mem.as_slice(), key_ofs, key_len)?;
    match ctx.storage_get(key.as_slice()) {
        None => Ok(0),
        Some(value) => {
            write_slice(mem, out_ofs, value.as_slice())?;
            Ok(value.len() as u32)
        },
    }
}

/// The `argument` capability: copies the running call's argument buffer to
/// `ofs`.
pub fn argument(ctx: &CallContext, mem: &mut Vec<u8>, ofs: u32) -> (r: Result<(), VMError>)
    requires
        ctx.wf(),
    ensures
        r is Ok <==> in_bounds(old(mem)@.len() as int, ofs as int, ctx.args().len() as int),
        r is Ok ==> final(mem)@ == written(old(mem)@, ofs as int, ctx.args()),
        r matches Err(e) ==> e == VMError::InvalidArguments && final(mem)@ == old(mem)@,
{
    write_slice(mem, ofs, ctx.arguments())
}

/// The `ret` capability: the bytes at `ofs .. ofs + len` become the running
/// call's return value.
pub fn ret(ctx: &mut CallContext, mem: &[u8], ofs: u32, len: u32) -> (r: Result<(), VMError>)
    requires
        old(ctx).wf(),
    ensures
        final(ctx).wf(),
        same_calls(final(ctx), old(ctx)),
        final(ctx).world() == old(ctx).world(),
        r is Ok <==> in_bounds(mem@.len() as int, ofs as int, len as int),
        r is Ok ==> final(ctx).ret() == mem@.subrange(ofs as int, ofs + len),
        r matches Err(e) ==> e == VMError::InvalidArguments && final(ctx).ret() == old(ctx).ret(),
{
    let bytes = read_slice(mem, ofs, len)?;
    ctx.set_return(bytes);
    Ok(())
}

/// The `self_hash` capability: writes the running contract's id to `ofs`.
pub fn self_hash(ctx: &CallContext, mem: &mut Vec<u8>, ofs: u32) -> (r: Result<(), VMError>)
    requires
        ctx.wf(),
    ensures
        r is Ok <==> in_bounds(old(mem)@.len() as int, ofs as int, 32),
        r is Ok ==> final(mem)@ == written(old(mem)@, ofs as int, ctx.current()),
        r matches Err(e) ==> e == VMError::InvalidArguments && final(mem)@ == old(mem)@,
{
    let id = ctx.self_id();
    write_slice(mem, ofs, id.as_bytes())
}

/// The `balance` capability: writes the running contract's balance to `ofs`
/// as 16 little-endian bytes.
pub fn balance(ctx: &CallContext, mem: &mut Vec<u8>, ofs: u32) -> (r: Result<(), VMError>)
    requires
        ctx.wf(),
    ensures
        r is Ok <==> in_bounds(old(mem)@.len() as int, ofs as int, 16),
        r is Ok ==> final(mem)@ == written(
            old(mem)@,
            ofs as int,
            spec_u128_to_le_bytes(ctx.world()[ctx.current()].balance),
        ),
        r matches Err(e) ==> e == VMError::InvalidArguments && final(mem)@ == old(mem)@,
{
    let bytes = u128_to_le_bytes(ctx.balance());
    proof {
        vstd::bytes::lemma_auto_spec_u128_to_from_le_bytes();
    }
    write_slice(mem, ofs, bytes.as_slice())
}

/// The first half of the `call_contract` capability: reads the 32-byte
/// target id at `id_ofs` and the arguments at `args_ofs .. + args_len`, and
/// enters the nested call. The embedder then runs the target's bytecode and
/// ends the call with [`call_contract_end`].
pub fn call_contract_begin(
    ctx: &mut CallContext,
    mem: &[u8],
    id_ofs: u32,
    args_ofs: u32,
    args_len: u32,
) -> (r: Result<(), VMError>)
    requires
        old(ctx).wf(),
    ensures
        final(ctx).wf(),
        !(in_bounds(mem@.len() as int, id_ofs as int, 32) && in_bounds(
            mem@.len() as int,
            args_ofs as int,
            args_len as int,
        )) ==> r == Err::<(), VMError>(VMError::InvalidArguments),
        in_bounds(mem@.len() as int, id_ofs as int, 32) && in_bounds(
            mem@.len() as int,
            args_ofs as int,
            args_len as int,
        ) ==> r == enter_result(
            old(ctx).world(),
            old(ctx).depth(),
            old(ctx).max_depth(),
            mem@.subrange(id_ofs as int, id_ofs + 32),
        ),
        r is Err ==> *final(ctx) == *old(ctx),
        r is Ok ==> {
            &&& final(ctx).world() == old(ctx).world()
            &&& final(ctx).saved() == old(ctx).saved().push(old(ctx).world())
            &&& final(ctx).depth() == old(ctx).depth() + 1
            &&& final(ctx).current() == mem@.subrange(id_ofs as int, id_ofs + 32)
            &&& final(ctx).args() == mem@.subrange(args_ofs as int, args_ofs + args_len)
            &&& final(ctx).ret() == Seq::<u8>::empty()
            &&& final(ctx).meter() == old(ctx).meter()
        },
{
    let id_bytes = read_slice(mem, id_ofs, 32)?;
    let args = read_slice(mem, args_ofs, args_len)?;
    let target = H256::from_bytes(id_bytes.as_slice());
    ctx.enter(&target, args)
}

/// The second half of the `call_contract` capability: leaves the nested call
/// with its outcome. On success the callee's return value is written to the
/// caller's memory at `ret_ofs` and its length is answered; a failure is
/// handed on, with the callee's staged writes dropped.
pub fn call_contract_end(
    ctx: &mut CallContext,
    mem: &mut Vec<u8>,
    ret_ofs: u32,
    outcome: Result<(), VMError>,
) -> (r: Result<u32, VMError>)
    requires
        old(ctx).wf(),
        old(ctx).depth() >= 2,
    ensures
        final(ctx).wf(),
        final(ctx).depth() == old(ctx).depth() - 1,
        final(ctx).saved() == old(ctx).saved().drop_last(),
        final(ctx).world() == world_after_leave(
            old(ctx).saved().last(),
            old(ctx).world(),
            outcome is Ok,
        ),
        final(ctx).meter() == old(ctx).meter(),
        outcome matches Err(e) ==> r == Err::<u32, VMError>(e) && final(mem)@ == old(mem)@,
        outcome is Ok && in_bounds(old(mem)@.len() as int, ret_ofs as int, old(ctx).ret().len() as int)
            ==> r == Ok::<u32, VMError>(old(ctx).ret().len() as u32) && final(mem)@ == written(
            old(mem)@,
            ret_ofs as int,
            old(ctx).ret(),
        ),
        outcome is Ok && !in_bounds(old(mem)@.len() as int, ret_ofs as int, old(ctx).ret().len() as int)
            ==> r == Err::<u32, VMError>(VMError::InvalidArguments) && final(mem)@ == old(mem)@,
{
    let bytes = ctx.leave(outcome)?;
    write_slice(mem, ret_ofs, bytes.as_slice())?;
    Ok(bytes.len() as u32)
}

} // verus!
