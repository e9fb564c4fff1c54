use vstd::prelude::*;

verus! {

/// Gas units.
pub type Gas = u64;

/// Outcome of one charge against a [`GasMeter`].
#[derive(Debug, PartialEq, Eq, Structural)]
pub enum GasMeterResult {
    Proceed,
    OutOfGas,
}

impl GasMeterResult {
    pub fn is_out_of_gas(&self) -> (r: bool)
        ensures
            r == (*self == GasMeterResult::OutOfGas),
    {
        match *self {
            GasMeterResult::OutOfGas => true,
            GasMeterResult::Proceed => false,
        }
    }
}

/// What is left after charging `amount` with `left` available: the
/// difference, or zero when the amount is larger.
pub open spec fn charge_step(left: nat, amount: nat) -> nat {
    if amount <= left {
        (left - amount) as nat
    } else {
        0
    }
}

/// What is left of `limit` after the charges in order.
pub open spec fn left_after(limit: nat, charges: Seq<u64>) -> nat
    decreases charges.len(),
{
    if charges.len() == 0 {
        limit
    } else {
        charge_step(left_after(limit, charges.drop_last()), charges.last() as nat)
    }
}

/// The sum of the charges.
pub open spec fn total(charges: Seq<u64>) -> nat
    decreases charges.len(),
{
    if charges.len() == 0 {
        0
    } else {
        total(charges.drop_last()) + charges.last() as nat
    }
}

/// A sequence of charges whose sum stays within the limit leaves exactly the
/// limit minus that sum, so the amount spent is the sum; once the sum
/// exceeds the limit nothing is left, whatever is charged afterwards.
pub proof fn lemma_charge_sequence(limit: nat, charges: Seq<u64>)
    ensures
        total(charges) <= limit ==> left_after(limit, charges) == limit - total(charges),
        total(charges) <= limit ==> limit - left_after(limit, charges) == total(charges),
        total(charges) > limit ==> left_after(limit, charges) == 0,
    decreases charges.len(),
{
    if charges.len() > 0 {
        lemma_charge_sequence(limit, charges.drop_last());
    }
}

/// Once the meter is empty it stays empty under any further charges.
pub proof fn lemma_empty_stays_empty(charges: Seq<u64>)
    ensures
        left_after(0, charges) == 0,
    decreases charges.len(),
{
    if charges.len() > 0 {
        lemma_empty_stays_empty(charges.drop_last());
    }
}

/// Tracks the gas consumed from a fixed budget.
#[derive(Debug)]
pub struct GasMeter {
    limit: Gas,
    /// Amount of gas left from the initial limit; may reach zero.
    left: Gas,
}

impl GasMeter {
    /// The budget the meter was created with.
    pub closed spec fn limit_spec(&self) -> nat {
        self.limit as nat
    }

    /// The gas still available.
    pub closed spec fn left_spec(&self) -> nat {
        self.left as nat
    }

    /// What remains never exceeds the budget.
    pub closed spec fn wf(&self) -> bool {
        self.left <= self.limit
    }

    /// Creates a meter with the whole budget available.
    pub fn with_limit(gas_limit: Gas) -> (r: GasMeter)
        ensures
            r.wf(),
            r.limit_spec() == gas_limit,
            r.left_spec() == gas_limit,
    {
        GasMeter { limit: gas_limit, left: gas_limit }
    }

    /// Deducts `amount`; on shortfall the meter drops to zero and reports
    /// `OutOfGas` (the gas is consumed either way).
    pub fn charge(&mut self, amount: Gas) -> (r: GasMeterResult)
        requires
            old(self).wf(),
        ensures
            final(self).wf(),
            final(self).limit_spec() == old(self).limit_spec(),
            final(self).left_spec() == charge_step(old(self).left_spec(), amount as nat),
            amount <= old(self).left_spec() ==> r == GasMeterResult::Proceed
                && final(self).left_spec() == old(self).left_spec() - amount,
            amount > old(self).left_spec() ==> r == GasMeterResult::OutOfGas
                && final(self).left_spec() == 0,
    {
        match self.left.checked_sub(amount) {
            Some(v) => {
                self.left = v;
                GasMeterResult::Proceed
            },
            None => {
                self.left = 0;
                GasMeterResult::OutOfGas
            },
        }
    }

    /// The gas left from the initial budget.
    pub fn gas_left(&self) -> (r: Gas)
        ensures
            r == self.left_spec(),
    {
        self.left
    }

    /// The gas spent so far.
    pub fn spent(&self) -> (r: Gas)
        requires
            self.wf(),
        ensures
            r == self.limit_spec() - self.left_spec(),
    {
        self.limit - self.left
    }
}

} // verus!
