use vstd::prelude::*;

use dusk_bls12_381_sign::Signature as PointSignature;
use dusk_bls12_381_sign::APK;
use dusk_bytes::Serializable;

use crate::error::VMError;
use crate::memory::{in_bounds, read_slice};

verus! {

#[verifier::external_type_specification]
#[verifier::external_body]
pub struct ExBlsSignature(PointSignature);

#[verifier::external_type_specification]
#[verifier::external_body]
pub struct ExApk(APK);

/// Size of a serialized BLS signature.
pub const SIGNATURE_SIZE: usize = 48;

/// Size of a serialized aggregated BLS public key.
pub const APK_SIZE: usize = 96;

/// Whether 48 bytes are the encoding of a BLS signature.
pub uninterp spec fn bls_signature_decodes(bytes: Seq<u8>) -> bool;

/// Whether 96 bytes are the encoding of an aggregated BLS public key.
pub uninterp spec fn bls_apk_decodes(bytes: Seq<u8>) -> bool;

/// Whether the signature encoded by `sig` is valid for `msg` under the key
/// encoded by `apk`.
pub uninterp spec fn bls_verifies(apk: Seq<u8>, sig: Seq<u8>, msg: Seq<u8>) -> bool;

/// A decoded BLS signature, kept with the bytes it came from.
pub struct BlsSignature {
    bytes: [u8; 48],
    inner: PointSignature,
}

/// A decoded aggregated BLS public key, kept with the bytes it came from.
pub struct BlsKey {
    bytes: [u8; 96],
    inner: APK,
}

impl BlsSignature {
    pub closed spec fn encoding(&self) -> Seq<u8> {
        self.bytes@
    }
}

impl BlsKey {
    pub closed spec fn encoding(&self) -> Seq<u8> {
        self.bytes@
    }
}

/// Relies on dusk_bls12_381_sign's `Signature::from_bytes`: it decodes a
/// compressed curve point and fails on bytes that encode none.
#[verifier::external_body]
fn decode_signature(bytes: &[u8; 48]) -> (r: Option<BlsSignature>)
    ensures
        r is Some <==> bls_signature_decodes(bytes@),
        r matches Some(s) ==> s.encoding() == bytes@,
{
    match PointSignature::from_bytes(bytes) {
        Ok(inner) => Some(BlsSignature { bytes: *bytes, inner }),
        Err(_) => None,
    }
}

/// Relies on dusk_bls12_381_sign's `APK::from_bytes`: it decodes a
/// compressed curve point and fails on bytes that encode none.
#[verifier::external_body]
fn decode_apk(bytes: &[u8; 96]) -> (r: Option<BlsKey>)
    ensures
        r is Some <==> bls_apk_decodes(bytes@),
        r matches Some(k) ==> k.encoding() == bytes@,
{
    match APK::from_bytes(bytes) {
        Ok(inner) => Some(BlsKey { bytes: *bytes, inner }),
        Err(_) => None,
    }
}

/// Relies on dusk_bls12_381_sign's `APK::verify`: a pairing check that is
/// `Ok` exactly when the signature is valid for the message under the key.
#[verifier::external_body]
fn check_signature(key: &BlsKey, sig: &BlsSignature, msg: &[u8]) -> (r: bool)
    ensures
        r == bls_verifies(key.encoding(), sig.encoding(), msg@),
{
    key.inner.verify(&sig.inner, msg).is_ok()
}

/// The value handed back to the bytecode for a verification verdict.
pub fn verdict(valid: bool) -> (r: i32)
    ensures
        r == (if valid { 1i32 } else { 0i32 }),
{
    if valid {
        1
    } else {
        0
    }
}

/// What `bls_verify` answers for the given memory and offsets.
pub open spec fn bls_verify_result(
    mem: Seq<u8>,
    sig_ofs: int,
    key_ofs: int,
    msg_ofs: int,
    msg_len: int,
) -> Result<i32, VMError> {
    if !in_bounds(mem.len() as int, msg_ofs, msg_len) || !in_bounds(
        mem.len() as int,
        sig_ofs,
        SIGNATURE_SIZE as int,
    ) || !in_bounds(mem.len() as int, key_ofs, APK_SIZE as int) {
        Err(VMError::InvalidArguments)
    } else {
        let sig = mem.subrange(sig_ofs, sig_ofs + SIGNATURE_SIZE);
        let key = mem.subrange(key_ofs, key_ofs + APK_SIZE);
        let msg = mem.subrange(msg_ofs, msg_ofs + msg_len);
        if !bls_signature_decodes(sig) || !bls_apk_decodes(key) {
            Err(VMError::InvalidArguments)
        } else if bls_verifies(key, sig, msg) {
            Ok(1)
        } else {
            Ok(0)
        }
    }
}

fn read_array48(mem: &[u8], ofs: u32) -> (r: Result<[u8; 48], VMError>)
    ensures
        in_bounds(mem@.len() as int, ofs as int, 48) <==> r is Ok,
        r matches Ok(a) ==> a@ == mem@.subrange(ofs as int, ofs + 48),
        r matches Err(e) ==> e == VMError::InvalidArguments,
{
    let v = read_slice(mem, ofs, 48)?;
    let mut a = [0u8; 48];
    let mut i: usize = 0;
    while i < 48
        invariant
            v@.len() == 48,
            forall|j: int| 0 <= j < i ==> a@[j] == v@[j],
            i <= 48,
        decreases 48 - i,
    {
        a[i] = v[i];
        i = i + 1;
    }
    assert(a@ == v@);
    Ok(a)
}

fn read_array96(mem: &[u8], ofs: u32) -> (r: Result<[u8; 96], VMError>)
    ensures
        in_bounds(mem@.len() as int, ofs as int, 96) <==> r is Ok,
        r matches Ok(a) ==> a@ == mem@.subrange(ofs as int, ofs + 96),
        r matches Err(e) ==> e == VMError::InvalidArguments,
{
    let v = read_slice(mem, ofs, 96)?;
    let mut a = [0u8; 96];
    let mut i: usize = 0;
    while i < 96
        invariant
            v@.len() == 96,
            forall|j: int| 0 <= j < i ==> a@[j] == v@[j],
            i <= 96,
        decreases 96 - i,
    {
        a[i] = v[i];
        i = i + 1;
    }
    assert(a@ == v@);
    Ok(a)
}

/// The `bls_verify` capability.
pub struct BlsVerify;

impl BlsVerify {
    /// Reads a signature, an aggregated public
    /// key and a message from the instance's memory and answers 1 when the
    /// signature is valid, 0 when it is well-formed but does not match.
    pub fn call(mem: &[u8], sig_ofs: u32, key_ofs: u32, msg_ofs: u32, msg_len: u32) -> (r: Result<
        i32,
        VMError,
    >)
        ensures
            r == bls_verify_result(mem@, sig_ofs as int, key_ofs as int, msg_ofs as int, msg_len as int),
    {
        let msg = read_slice(mem, msg_ofs, msg_len)?;
        let sig_bytes = read_array48(mem, sig_ofs)?;
        let key_bytes = read_array96(mem, key_ofs)?;
        let sig = match decode_signature(&sig_bytes) {
            Some(s) => s,
            None => return Err(VMError::InvalidArguments),
        };
        let key = match decode_apk(&key_bytes) {
            Some(k) => k,
            None => return Err(VMError::InvalidArguments),
        };
        Ok(verdict(check_signature(&key, &sig, msg.as_slice())))
    }
}

} // verus!
