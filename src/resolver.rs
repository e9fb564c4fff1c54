use vstd::prelude::*;

use vstd::string::StringSliceAdditionalSpecFns;

use crate::types::bytes_eq;

verus! {

/// The host capabilities a contract can import, each under a fixed name and
/// numeric id.
#[derive(Debug, Clone, Copy, PartialEq, Eq, Structural)]
pub enum HostOp {
    Panic,
    Debug,
    SetStorage,
    GetStorage,
    DeleteStorage,
    Argument,
    CallContract,
    Balance,
    Ret,
    SelfHash,
    Gas,
    OpCode,
    CallContractOp,
    PhoenixStore,
    PhoenixVerify,
    PhoenixCredit,
    BlsVerify,
}

/// Number of host capabilities.
pub const HOST_OPS: usize = 17;

/// The numeric id of each capability.
pub open spec fn op_id(op: HostOp) -> u32 {
    match op {
        HostOp::Panic => 0,
        HostOp::Debug => 1,
        HostOp::SetStorage => 2,
        HostOp::GetStorage => 3,
        HostOp::DeleteStorage => 4,
        HostOp::Argument => 5,
        HostOp::CallContract => 6,
        HostOp::Balance => 7,
        HostOp::Ret => 8,
        HostOp::SelfHash => 9,
        HostOp::Gas => 10,
        HostOp::OpCode => 11,
        HostOp::CallContractOp => 12,
        HostOp::PhoenixStore => 110,
        HostOp::PhoenixVerify => 120,
        HostOp::PhoenixCredit => 130,
        HostOp::BlsVerify => 140,
    }
}

/// The capability under each numeric id.
pub open spec fn op_of_id(id: u32) -> Option<HostOp> {
    match id {
        0 => Some(HostOp::Panic),
        1 => Some(HostOp::Debug),
        2 => Some(HostOp::SetStorage),
        3 => Some(HostOp::GetStorage),
        4 => Some(HostOp::DeleteStorage),
        5 => Some(HostOp::Argument),
        6 => Some(HostOp::CallContract),
        7 => Some(HostOp::Balance),
        8 => Some(HostOp::Ret),
        9 => Some(HostOp::SelfHash),
        10 => Some(HostOp::Gas),
        11 => Some(HostOp::OpCode),
        12 => Some(HostOp::CallContractOp),
        110 => Some(HostOp::PhoenixStore),
        120 => Some(HostOp::PhoenixVerify),
        130 => Some(HostOp::PhoenixCredit),
        140 => Some(HostOp::BlsVerify),
        _ => None,
    }
}

/// The position of each capability in the cost table.
pub open spec fn op_slot(op: HostOp) -> nat {
    match op {
        HostOp::Panic => 0,
        HostOp::Debug => 1,
        HostOp::SetStorage => 2,
        HostOp::GetStorage => 3,
        HostOp::DeleteStorage => 4,
        HostOp::Argument => 5,
        HostOp::CallContract => 6,
        HostOp::Balance => 7,
        HostOp::Ret => 8,
        HostOp::SelfHash => 9,
        HostOp::Gas => 10,
        HostOp::OpCode => 11,
        HostOp::CallContractOp => 12,
        HostOp::PhoenixStore => 13,
        HostOp::PhoenixVerify => 14,
        HostOp::PhoenixCredit => 15,
        HostOp::BlsVerify => 16,
    }
}

/// The import name of each capability.
pub open spec fn op_name(op: HostOp) -> &'static str {
    match op {
        HostOp::Panic => "panic",
        HostOp::Debug => "debug",
        HostOp::SetStorage => "set_storage",
        HostOp::GetStorage => "get_storage",
        HostOp::DeleteStorage => "delete_storage",
        HostOp::Argument => "argument",
        HostOp::CallContract => "call_contract",
        HostOp::Balance => "balance",
        HostOp::Ret => "ret",
        HostOp::SelfHash => "self_hash",
        HostOp::Gas => "gas",
        HostOp::OpCode => "opcode",
        HostOp::CallContractOp => "call_contract_operation",
        HostOp::PhoenixStore => "phoenix_store",
        HostOp::PhoenixVerify => "phoenix_verify",
        HostOp::PhoenixCredit => "phoenix_credit",
        HostOp::BlsVerify => "bls_verify",
    }
}

/// How many 32-bit arguments each capability takes.
pub open spec fn op_arity(op: HostOp) -> nat {
    match op {
        HostOp::OpCode => 0,
        HostOp::Argument | HostOp::Balance | HostOp::SelfHash | HostOp::Gas => 1,
        HostOp::Panic | HostOp::Debug | HostOp::DeleteStorage | HostOp::Ret => 2,
        HostOp::GetStorage => 3,
        _ => 4,
    }
}

/// Whether each capability hands a 32-bit value back.
pub open spec fn op_returns_value(op: HostOp) -> bool {
    match op {
        HostOp::GetStorage | HostOp::CallContract | HostOp::CallContractOp | HostOp::OpCode
        | HostOp::PhoenixVerify | HostOp::BlsVerify => true,
        _ => false,
    }
}

/// Every capability, in the order of the table.
pub open spec fn all_ops() -> Seq<HostOp> {
    seq![
        HostOp::Panic,
        HostOp::Debug,
        HostOp::SetStorage,
        HostOp::GetStorage,
        HostOp::DeleteStorage,
        HostOp::Argument,
        HostOp::CallContract,
        HostOp::Balance,
        HostOp::Ret,
        HostOp::SelfHash,
        HostOp::Gas,
        HostOp::OpCode,
        HostOp::CallContractOp,
        HostOp::PhoenixStore,
        HostOp::PhoenixVerify,
        HostOp::PhoenixCredit,
        HostOp::BlsVerify,
    ]
}

proof fn lemma_all_ops_slots(op: HostOp)
    ensures
        op_slot(op) < 17,
        all_ops()[op_slot(op) as int] == op,
{
}

impl HostOp {
    /// The numeric id of the capability.
    pub fn id(&self) -> (r: u32)
        ensures
            r == op_id(*self),
    {
        match self {
            HostOp::Panic => 0,
            HostOp::Debug => 1,
            HostOp::SetStorage => 2,
            HostOp::GetStorage => 3,
            HostOp::DeleteStorage => 4,
            HostOp::Argument => 5,
            HostOp::CallContract => 6,
            HostOp::Balance => 7,
            HostOp::Ret => 8,
            HostOp::SelfHash => 9,
            HostOp::Gas => 10,
            HostOp::OpCode => 11,
            HostOp::CallContractOp => 12,
            HostOp::PhoenixStore => 110,
            HostOp::PhoenixVerify => 120,
            HostOp::PhoenixCredit => 130,
            HostOp::BlsVerify => 140,
        }
    }

    /// The capability under a numeric id, if any.
    pub fn from_id(id: u32) -> (r: Option<HostOp>)
        ensures
            r == op_of_id(id),
            r matches Some(op) ==> op_id(op) == id,
            forall|op: HostOp| #[trigger] op_id(op) == id ==> r == Some(op),
    {
        match id {
            0 => Some(HostOp::Panic),
            1 => Some(HostOp::Debug),
            2 => Some(HostOp::SetStorage),
            3 => Some(HostOp::GetStorage),
            4 => Some(HostOp::DeleteStorage),
            5 => Some(HostOp::Argument),
            6 => Some(HostOp::CallContract),
            7 => Some(HostOp::Balance),
            8 => Some(HostOp::Ret),
            9 => Some(HostOp::SelfHash),
            10 => Some(HostOp::Gas),
            11 => Some(HostOp::OpCode),
            12 => Some(HostOp::CallContractOp),
            110 => Some(HostOp::PhoenixStore),
            120 => Some(HostOp::PhoenixVerify),
            130 => Some(HostOp::PhoenixCredit),
            140 => Some(HostOp::BlsVerify),
            _ => None,
        }
    }

    /// The position of the capability in the cost table.
    pub fn slot(&self) -> (r: usize)
        ensures
            r == op_slot(*self),
            r < HOST_OPS,
    {
        match self {
            HostOp::Panic => 0,
            HostOp::Debug => 1,
            HostOp::SetStorage => 2,
            HostOp::GetStorage => 3,
            HostOp::DeleteStorage => 4,
            HostOp::Argument => 5,
            HostOp::CallContract => 6,
            HostOp::Balance => 7,
            HostOp::Ret => 8,
            HostOp::SelfHash => 9,
            HostOp::Gas => 10,
            HostOp::OpCode => 11,
            HostOp::CallContractOp => 12,
            HostOp::PhoenixStore => 13,
            HostOp::PhoenixVerify => 14,
            HostOp::PhoenixCredit => 15,
            HostOp::BlsVerify => 16,
        }
    }

    /// The import name of the capability.
    pub fn name(&self) -> (r: &'static str)
        ensures
            r == op_name(*self),
    {
        match self {
            HostOp::Panic => "panic",
            HostOp::Debug => "debug",
            HostOp::SetStorage => "set_storage",
            HostOp::GetStorage => "get_storage",
            HostOp::DeleteStorage => "delete_storage",
            HostOp::Argument => "argument",
            HostOp::CallContract => "call_contract",
            HostOp::Balance => "balance",
            HostOp::Ret => "ret",
            HostOp::SelfHash => "self_hash",
            HostOp::Gas => "gas",
            HostOp::OpCode => "opcode",
            HostOp::CallContractOp => "call_contract_operation",
            HostOp::PhoenixStore => "phoenix_store",
            HostOp::PhoenixVerify => "phoenix_verify",
            HostOp::PhoenixCredit => "phoenix_credit",
            HostOp::BlsVerify => "bls_verify",
        }
    }

    /// How many 32-bit arguments the capability takes.
    pub fn arity(&self) -> (r: usize)
        ensures
            r == op_arity(*self),
    {
        match self {
            HostOp::Panic => 2,
            HostOp::Debug => 2,
            HostOp::SetStorage => 4,
            HostOp::GetStorage => 3,
            HostOp::DeleteStorage => 2,
            HostOp::Argument => 1,
            HostOp::CallContract => 4,
            HostOp::Balance => 1,
            HostOp::Ret => 2,
            HostOp::SelfHash => 1,
            HostOp::Gas => 1,
            HostOp::OpCode => 0,
            HostOp::CallContractOp => 4,
            HostOp::PhoenixStore => 4,
            HostOp::PhoenixVerify => 4,
            HostOp::PhoenixCredit => 4,
            HostOp::BlsVerify => 4,
        }
    }

    /// Whether the capability hands a 32-bit value back to the bytecode.
    pub fn returns_value(&self) -> (r: bool)
        ensures
            r == op_returns_value(*self),
    {
        match self {
            HostOp::GetStorage | HostOp::CallContract | HostOp::CallContractOp | HostOp::OpCode
            | HostOp::PhoenixVerify | HostOp::BlsVerify => true,
            _ => false,
        }
    }
}

/// Resolves an import by name.
pub fn resolve(name: &str) -> (r: Option<HostOp>)
    ensures
        r matches Some(op) ==> op_name(op).spec_bytes() == name.spec_bytes(),
        r is None ==> forall|op: HostOp| op_name(op).spec_bytes() != name.spec_bytes(),
{
    let ops: [HostOp; 17] = [
        HostOp::Panic,
        HostOp::Debug,
        HostOp::SetStorage,
        HostOp::GetStorage,
        HostOp::DeleteStorage,
        HostOp::Argument,
        HostOp::CallContract,
        HostOp::Balance,
        HostOp::Ret,
        HostOp::SelfHash,
        HostOp::Gas,
        HostOp::OpCode,
        HostOp::CallContractOp,
        HostOp::PhoenixStore,
        HostOp::PhoenixVerify,
        HostOp::PhoenixCredit,
        HostOp::BlsVerify,
    ];
    assert(ops@ == all_ops());
    let mut i: usize = 0;
    while i < 17
        invariant
            ops@ == all_ops(),
            i <= 17,
            forall|j: int| 0 <= j < i ==> op_name(#[trigger] all_ops()[j]).spec_bytes() != name.spec_bytes(),
        decreases 17 - i,
    {
        let op = ops[i];
        if bytes_eq(op.name().as_bytes(), name.as_bytes()) {
            return Some(op);
        }
        i = i + 1;
    }
    proof {
        assert forall|op: HostOp| op_name(op).spec_bytes() != name.spec_bytes() by {
            lemma_all_ops_slots(op);
        }
    }
    None
}

/// Each capability is found again under its own id, and no two share an id
/// or a place in the cost table.
pub proof fn lemma_id_round_trip(op: HostOp, other: HostOp)
    ensures
        op_of_id(op_id(op)) == Some(op),
        op_id(op) == op_id(other) ==> op == other,
        op_slot(op) == op_slot(other) ==> op == other,
{
}

/// The price table: the cost of one metered instruction and of each host
/// capability.
pub struct Schedule {
    regular_op_cost: u64,
    host_costs: [u64; 17],
}

impl Schedule {
    pub closed spec fn regular_op_cost_spec(&self) -> u64 {
        self.regular_op_cost
    }

    /// The price of a host capability.
    pub closed spec fn host_cost_spec(&self, op: HostOp) -> u64 {
        self.host_costs@[op_slot(op) as int]
    }

    /// A table with the given instruction cost and per-capability prices, in
    /// the order of the capability table.
    pub fn with_costs(regular_op_cost: u64, host_costs: [u64; 17]) -> (r: Schedule)
        ensures
            r.regular_op_cost_spec() == regular_op_cost,
            forall|op: HostOp| #[trigger] r.host_cost_spec(op) == host_costs@[op_slot(op) as int],
    {
        Schedule { regular_op_cost, host_costs }
    }

    /// A table where every host capability has the same price.
    pub fn uniform(regular_op_cost: u64, host_call_cost: u64) -> (r: Schedule)
        ensures
            r.regular_op_cost_spec() == regular_op_cost,
            forall|op: HostOp| #[trigger] r.host_cost_spec(op) == host_call_cost,
    {
        let r = Schedule { regular_op_cost, host_costs: [host_call_cost; 17] };
        proof {
            assert forall|op: HostOp| #[trigger] r.host_cost_spec(op) == host_call_cost by {
                lemma_all_ops_slots(op);
            }
        }
        r
    }

    /// The cost of one metered instruction.
    pub fn regular_op_cost(&self) -> (r: u64)
        ensures
            r == self.regular_op_cost_spec(),
    {
        self.regular_op_cost
    }

    /// The price of a host capability.
    pub fn host_cost(&self, op: HostOp) -> (r: u64)
        ensures
            r == self.host_cost_spec(op),
    {
        self.host_costs[op.slot()]
    }
}

impl Default for Schedule {
    fn default() -> (r: Schedule)
        ensures
            r.regular_op_cost_spec() == 1,
            forall|op: HostOp| #[trigger] r.host_cost_spec(op) == 1,
    {
        Schedule::uniform(1, 1)
    }
}

} // verus!
