use vstd::prelude::*;
use vstd::slice::slice_to_vec;

use crate::error::VMError;

verus! {

/// Whether `len` bytes starting at `ofs` lie inside a memory of `size` bytes.
pub open spec fn in_bounds(size: int, ofs: int, len: int) -> bool {
    0 <= ofs && 0 <= len && ofs + len <= size
}

/// Bytes `ofs .. ofs + len` of `mem`, copied out after checking the range.
pub fn read_slice(mem: &[u8], ofs: u32, len: u32) -> (r: Result<Vec<u8>, VMError>)
    ensures
        in_bounds(mem@.len() as int, ofs as int, len as int) <==> r is Ok,
        r matches Ok(v) ==> v@ == mem@.subrange(ofs as int, ofs + len),
        r matches Err(e) ==> e == VMError::InvalidArguments,
{
    let ofs = ofs as usize;
    let len = len as usize;
    if ofs > mem.len() || len > mem.len() - ofs {
        return Err(VMError::InvalidArguments);
    }
    Ok(slice_to_vec(&mem[ofs..ofs + len]))
}

/// `mem` with `data` written over it from `ofs` on.
pub open spec fn written(mem: Seq<u8>, ofs: int, data: Seq<u8>) -> Seq<u8> {
    mem.subrange(0, ofs) + data + mem.subrange(ofs + data.len(), mem.len() as int)
}

/// Writes `data` into `mem` at `ofs` after checking the range; on failure
/// the memory is left as it was.
pub fn write_slice(mem: &mut Vec<u8>, ofs: u32, data: &[u8]) -> (r: Result<(), VMError>)
    ensures
        in_bounds(old(mem)@.len() as int, ofs as int, data@.len() as int) <==> r is Ok,
        r is Ok ==> final(mem)@ == written(old(mem)@, ofs as int, data@),
        r matches Err(e) ==> e == VMError::InvalidArguments && final(mem)@ == old(mem)@,
{
    let start = ofs as usize;
    if start > mem.len() || data.len() > mem.len() - start {
        return Err(VMError::InvalidArguments);
    }
    let size = mem.len();
    let mut i: usize = 0;
    while i < data.len()
        invariant
            mem@.len() == size,
            start + data@.len() <= size,
            mem@.len() == old(mem)@.len(),
            i <= data@.len(),
            forall|j: int| 0 <= j < start ==> mem@[j] == old(mem)@[j],
            forall|j: int| start + data@.len() <= j < mem@.len() ==> mem@[j] == old(mem)@[j],
            forall|j: int| 0 <= j < i ==> mem@[start + j] == data@[j],
            forall|j: int| start + i <= j < start + data@.len() ==> mem@[j] == old(mem)@[j],
        decreases data@.len() - i,
    {
        mem.set(start + i, data[i]);
        i = i + 1;
    }
    assert(mem@ == written(old(mem)@, ofs as int, data@));
    Ok(())
}

} // verus!
