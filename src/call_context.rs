use vstd::prelude::*;

use crate::error::VMError;
use crate::gas::{Gas, GasMeter, GasMeterResult};
use crate::state::{ContractView, NetworkState};
use crate::types::H256;

verus! {

/// The staged world after a nested call returns: the child's writes are kept
/// when it succeeded and dropped, back to the world it started from, when it
/// failed.
pub open spec fn world_after_leave(
    at_entry: Map<Seq<u8>, ContractView>,
    child: Map<Seq<u8>, ContractView>,
    succeeded: bool,
) -> Map<Seq<u8>, ContractView> {
    if succeeded {
        child
    } else {
        at_entry
    }
}

/// The network after a root call ends: the staged world when the call
/// succeeded, the network as it was otherwise.
pub open spec fn network_after_call(
    before: Map<Seq<u8>, ContractView>,
    staged: Map<Seq<u8>, ContractView>,
    succeeded: bool,
) -> Map<Seq<u8>, ContractView> {
    if succeeded {
        staged
    } else {
        before
    }
}

/// What entering a nested call answers, from the staged world, the current
/// depth, the maximum depth and the target id.
pub open spec fn enter_result(
    world: Map<Seq<u8>, ContractView>,
    depth: nat,
    max_depth: nat,
    target: Seq<u8>,
) -> Result<(), VMError> {
    if depth >= max_depth {
        Err(VMError::MaxCallDepthExceeded)
    } else if !world.contains_key(target) {
        Err(VMError::UnknownContract)
    } else {
        Ok(())
    }
}

/// One call on the stack: the contract it runs, its argument buffer and
/// its return buffer.
pub struct Frame {
    contract: H256,
    args: Vec<u8>,
    ret: Vec<u8>,
}

/// The context of a running root call and the nested calls below it.
///
/// All storage reads and writes go to a staged copy of the network; each
/// nested call keeps the staged world it started from so that its writes can
/// be dropped if it fails. The network itself is only written when the root
/// call succeeds.
pub struct CallContext {
    world: NetworkState,
    saved: Vec<NetworkState>,
    frames: Vec<Frame>,
    gas: GasMeter,
    max_depth: usize,
}

impl CallContext {
    /// The staged world.
    pub closed spec fn world(&self) -> Map<Seq<u8>, ContractView> {
        self.world@
    }

    /// The staged world at the entry of each nested call, outermost first.
    pub closed spec fn saved(&self) -> Seq<Map<Seq<u8>, ContractView>> {
        self.saved@.map_values(|n: NetworkState| n@)
    }

    /// The number of calls on the stack, the root included.
    pub closed spec fn depth(&self) -> nat {
        self.frames@.len()
    }

    pub closed spec fn max_depth(&self) -> nat {
        self.max_depth as nat
    }

    /// The id of the contract that runs in the innermost call.
    pub closed spec fn current(&self) -> Seq<u8> {
        self.frames@.last().contract@
    }

    /// The argument buffer of the innermost call.
    pub closed spec fn args(&self) -> Seq<u8> {
        self.frames@.last().args@
    }

    /// The return buffer of the innermost call.
    pub closed spec fn ret(&self) -> Seq<u8> {
        self.frames@.last().ret@
    }

    /// The gas meter shared by all calls of the stack.
    pub closed spec fn meter(&self) -> GasMeter {
        self.gas
    }

    pub closed spec fn wf(&self) -> bool {
        &&& 1 <= self.frames@.len() <= self.max_depth
        &&& self.saved@.len() + 1 == self.frames@.len()
        &&& self.world.wf()
        &&& forall|j: int| 0 <= j < self.saved@.len() ==> (#[trigger] self.saved@[j]).wf()
        &&& forall|j: int|
            0 <= j < self.saved@.len() ==> (#[trigger] self.saved@[j])@.dom() == self.world@.dom()
        &&& forall|j: int|
            0 <= j < self.frames@.len() ==> self.world@.contains_key(
                (#[trigger] self.frames@[j]).contract@,
            )
        &&& self.gas.wf()
    }

    /// Starts a root call of the contract `id` on a staged copy of `state`.
    pub fn root(state: &NetworkState, id: &H256, args: Vec<u8>, gas: GasMeter, max_depth: usize) -> (r:
        Result<CallContext, VMError>)
        requires
            state.wf(),
            gas.wf(),
            max_depth >= 1,
        ensures
            state@.contains_key(id@) <==> r is Ok,
            r matches Err(e) ==> e == VMError::UnknownContract,
            r matches Ok(c) ==> {
                &&& c.wf()
                &&& c.world() == state@
                &&& c.depth() == 1
                &&& c.max_depth() == max_depth
                &&& c.current() == id@
                &&& c.args() == args@
                &&& c.ret() == Seq::<u8>::empty()
                &&& c.meter() == gas
            },
    {
        if state.get_contract_state(id).is_none() {
            return Err(VMError::UnknownContract);
        }
        let world = state.duplicate();
        let mut frames: Vec<Frame> = Vec::new();
        frames.push(Frame { contract: *id, args, ret: Vec::new() });
        Ok(CallContext { world, saved: Vec::new(), frames, gas, max_depth })
    }

    /// Enters a nested call of the contract `target` with `args`. It fails,
    /// changing nothing, when the stack is at its maximum depth or no
    /// contract is deployed under `target`.
    pub fn enter(&mut self, target: &H256, args: Vec<u8>) -> (r: Result<(), VMError>)
        requires
            old(self).wf(),
        ensures
            final(self).wf(),
            r == enter_result(old(self).world(), old(self).depth(), old(self).max_depth(), target@),
            r is Err ==> *final(self) == *old(self),
            r is Ok ==> {
                &&& final(self).world() == old(self).world()
                &&& final(self).saved() == old(self).saved().push(old(self).world())
                &&& final(self).depth() == old(self).depth() + 1
                &&& final(self).max_depth() == old(self).max_depth()
                &&& final(self).current() == target@
                &&& final(self).args() == args@
                &&& final(self).ret() == Seq::<u8>::empty()
                &&& final(self).meter() == old(self).meter()
            },
    {
        if self.frames.len() >= self.max_depth {
            return Err(VMError::MaxCallDepthExceeded);
        }
        if self.world.get_contract_state(target).is_none() {
            return Err(VMError::UnknownContract);
        }
        let snapshot = self.world.duplicate();
        self.saved.push(snapshot);
        self.frames.push(Frame { contract: *target, args, ret: Vec::new() });
        proof {
            assert(self.saved() =~= old(self).saved().push(old(self).world()));
            assert forall|j: int| 0 <= j < self.frames@.len() implies self.world@.contains_key(
                (#[trigger] self.frames@[j]).contract@,
            ) by {
                if j < old(self).frames@.len() {
                    assert(self.frames@[j] == old(self).frames@[j]);
                }
            }
        }
        Ok(())
    }

    /// Leaves the innermost nested call. On success its staged writes stay
    /// and its return buffer is handed back; on failure the staged world goes
    /// back to what it was when the call was entered and the error is handed
    /// back. Gas spent by the call is not refunded either way.
    pub fn leave(&mut self, outcome: Result<(), VMError>) -> (r: Result<Vec<u8>, VMError>)
        requires
            old(self).wf(),
            old(self).depth() >= 2,
        ensures
            final(self).wf(),
            final(self).depth() == old(self).depth() - 1,
            final(self).max_depth() == old(self).max_depth(),
            final(self).saved() == old(self).saved().drop_last(),
            final(self).world() == world_after_leave(
                old(self).saved().last(),
                old(self).world(),
                outcome is Ok,
            ),
            final(self).meter() == old(self).meter(),
            outcome is Ok ==> r == Ok::<Vec<u8>, VMError>(r->Ok_0) && r->Ok_0@ == old(self).ret(),
            outcome matches Err(e) ==> r == Err::<Vec<u8>, VMError>(e),
    {
        let frame = self.frames.pop().unwrap();
        let entry = self.saved.pop().unwrap();
        proof {
            assert(self.saved() =~= old(self).saved().drop_last());
            assert(old(self).saved().last() == entry@);
        }
        match outcome {
            Ok(()) => Ok(frame.ret),
            Err(e) => {
                self.world = entry;
                Err(e)
            },
        }
    }

    /// Ends the root call: on success the staged world becomes the network's
    /// state and the root's return buffer is handed back; on failure the
    /// network is left as it was. The gas meter is handed back either way.
    pub fn finish(self, state: &mut NetworkState, outcome: Result<(), VMError>) -> (r: (
        Result<Vec<u8>, VMError>,
        GasMeter,
    ))
        requires
            self.wf(),
            self.depth() == 1,
            old(state).wf(),
        ensures
            final(state).wf(),
            final(state)@ == network_after_call(old(state)@, self.world(), outcome is Ok),
            r.1 == self.meter(),
            outcome is Ok ==> r.0 is Ok && r.0->Ok_0@ == self.ret(),
            outcome matches Err(e) ==> r.0 == Err::<Vec<u8>, VMError>(e),
    {
        let CallContext { world, saved: _, mut frames, gas, max_depth: _ } = self;
        let frame = frames.pop().unwrap();
        match outcome {
            Ok(()) => {
                *state = world;
                (Ok(frame.ret), gas)
            },
            Err(e) => (Err(e), gas),
        }
    }

    /// The id of the contract that runs in the innermost call.
    pub fn self_id(&self) -> (r: H256)
        requires
            self.wf(),
        ensures
            r@ == self.current(),
    {
        self.frames[self.frames.len() - 1].contract
    }

    /// The argument buffer of the innermost call.
    pub fn arguments(&self) -> (r: &[u8])
        requires
            self.wf(),
        ensures
            r@ == self.args(),
    {
        self.frames[self.frames.len() - 1].args.as_slice()
    }

    /// Replaces the return buffer of the innermost call.
    pub fn set_return(&mut self, bytes: Vec<u8>)
        requires
            old(self).wf(),
        ensures
            final(self).wf(),
            final(self).ret() == bytes@,
            final(self).world() == old(self).world(),
            final(self).saved() == old(self).saved(),
            final(self).depth() == old(self).depth(),
            final(self).max_depth() == old(self).max_depth(),
            final(self).current() == old(self).current(),
            final(self).args() == old(self).args(),
            final(self).meter() == old(self).meter(),
    {
        let last = self.frames.len() - 1;
        let mut frame = self.frames.remove(last);
        frame.ret = bytes;
        self.frames.push(frame);
        proof {
            assert forall|j: int| 0 <= j < self.frames@.len() implies self.world@.contains_key(
                (#[trigger] self.frames@[j]).contract@,
            ) by {
                assert(self.frames@[j].contract == old(self).frames@[j].contract);
            }
        }
    }

    /// Charges `amount` against the shared gas meter; the gas is consumed
    /// even when it runs out.
    pub fn charge(&mut self, amount: Gas) -> (r: Result<(), VMError>)
        requires
            old(self).wf(),
        ensures
            final(self).wf(),
            final(self).world() == old(self).world(),
            final(self).saved() == old(self).saved(),
            final(self).depth() == old(self).depth(),
            final(self).max_depth() == old(self).max_depth(),
            final(self).current() == old(self).current(),
            final(self).args() == old(self).args(),
            final(self).ret() == old(self).ret(),
            final(self).meter().limit_spec() == old(self).meter().limit_spec(),
            final(self).meter().wf(),
            amount <= old(self).meter().left_spec() ==> r is Ok
                && final(self).meter().left_spec() == old(self).meter().left_spec() - amount,
            amount > old(self).meter().left_spec() ==> r == Err::<(), VMError>(VMError::OutOfGas)
                && final(self).meter().left_spec() == 0,
    {
        match self.gas.charge(amount) {
            GasMeterResult::Proceed => Ok(()),
            GasMeterResult::OutOfGas => Err(VMError::OutOfGas),
        }
    }

    /// The gas left in the shared meter.
    pub fn gas_left(&self) -> (r: Gas)
        ensures
            r == self.meter().left_spec(),
    {
        self.gas.gas_left()
    }

    /// The value stored under `key` in the innermost contract's staged
    /// storage, if any.
    pub fn storage_get(&self, key: &[u8]) -> (r: Option<Vec<u8>>)
        requires
            self.wf(),
        ensures
            r is Some <==> self.world()[self.current()].storage.contains_key(key@),
            r matches Some(v) ==> v@ == self.world()[self.current()].storage[key@],
    {
        let id = self.self_id();
        match self.world.get_contract_state(&id) {
            Some(c) => c.get(key),
            None => None,
        }
    }

    /// The bytecode of the innermost contract.
    pub fn current_code(&self) -> (r: &[u8])
        requires
            self.wf(),
        ensures
            r@ == self.world()[self.current()].code,
    {
        let id = self.self_id();
        match self.world.get_contract_state(&id) {
            Some(c) => c.code(),
            None => &[],
        }
    }

    /// The balance of the innermost contract in the staged world.
    pub fn balance(&self) -> (r: u128)
        requires
            self.wf(),
        ensures
            r == self.world()[self.current()].balance,
    {
        let id = self.self_id();
        match self.world.get_contract_state(&id) {
            Some(c) => c.balance(),
            None => 0,
        }
    }

    /// Writes `key` in the innermost contract's staged storage: `Some`
    /// stores a value, `None` removes the entry.
    pub fn storage_write(&mut self, key: Vec<u8>, value: Option<Vec<u8>>)
        requires
            old(self).wf(),
        ensures
            final(self).wf(),
            final(self).world() == old(self).world().insert(
                old(self).current(),
                ContractView {
                    storage: match value {
                        Some(v) => old(self).world()[old(self).current()].storage.insert(key@, v@),
                        None => old(self).world()[old(self).current()].storage.remove(key@),
                    },
                    ..old(self).world()[old(self).current()]
                },
            ),
            final(self).saved() == old(self).saved(),
            final(self).depth() == old(self).depth(),
            final(self).max_depth() == old(self).max_depth(),
            final(self).current() == old(self).current(),
            final(self).args() == old(self).args(),
            final(self).ret() == old(self).ret(),
            final(self).meter() == old(self).meter(),
    {
        let id = self.self_id();
        self.world.write_storage(&id, key, value);
        proof {
            assert(self.world@.dom() =~= old(self).world@.dom());
        }
    }
}

/// A nested call into an id under which no contract is deployed fails with
/// `UnknownContract` (where the depth limit is not reached first), and the
/// failed root call then leaves the network exactly as it was, whatever the
/// calling contract had staged before.
pub proof fn lemma_unknown_contract_rolls_back(
    before: Map<Seq<u8>, ContractView>,
    staged: Map<Seq<u8>, ContractView>,
    depth: nat,
    max_depth: nat,
    target: Seq<u8>,
)
    requires
        !staged.contains_key(target),
        depth < max_depth,
    ensures
        enter_result(staged, depth, max_depth, target) == Err::<(), VMError>(
            VMError::UnknownContract,
        ),
        network_after_call(before, staged, false) == before,
{
}

/// A storage write made by a nested call that succeeds is read back by the
/// caller afterwards and reaches the network when the root call succeeds; a
/// write made by a nested call that fails is never seen: the caller reads
/// what was there when the nested call began.
pub proof fn lemma_nested_writes(
    before: Map<Seq<u8>, ContractView>,
    at_entry: Map<Seq<u8>, ContractView>,
    child: Map<Seq<u8>, ContractView>,
    id: Seq<u8>,
    key: Seq<u8>,
)
    requires
        child.contains_key(id),
        child[id].storage.contains_key(key),
    ensures
        world_after_leave(at_entry, child, true)[id].storage[key] == child[id].storage[key],
        network_after_call(before, world_after_leave(at_entry, child, true), true)[id].storage[key]
            == child[id].storage[key],
        world_after_leave(at_entry, child, false) == at_entry,
        network_after_call(before, world_after_leave(at_entry, child, false), true) == at_entry,
{
}

} // verus!
