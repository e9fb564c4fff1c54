//! A host runtime for metered contract bytecode: the gas meter, the
//! content-addressed network state, the call context with its staged
//! writes and rollback, and the host operations that contracts import.
use vstd::prelude::*;

pub mod bls;
pub mod call_context;
pub mod digest;
pub mod error;
pub mod gas;
pub mod memory;
pub mod ops;
pub mod resolver;
pub mod state;
pub mod table;
pub mod types;

verus! {

} // verus!
