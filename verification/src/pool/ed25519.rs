//! Recognising the instruction by which the signature program has checked a
//! signature: that it is addressed to that program, and that its data names
//! exactly the key, the message and the signature that are expected.
//!
//! The data of such an instruction is a header of 16 bytes, then the key (32
//! bytes), the signature (64 bytes) and the message.

use vstd::prelude::*;
use crate::constants::{PUBKEY_LEN, PUBKEY_OFFSET, SIG_LEN};
use crate::error::MaxiFarmError;
use crate::ledger::Instruction;
use crate::pubkey::Pubkey;

verus! {

/// The address of the signature program, as bytes.
pub open spec fn ed25519_program_key() -> Seq<u8> {
    seq![
        3u8, 125u8, 70u8, 214u8, 124u8, 147u8, 251u8, 190u8,
        18u8, 249u8, 66u8, 143u8, 131u8, 141u8, 64u8, 255u8,
        5u8, 112u8, 116u8, 73u8, 39u8, 244u8, 138u8, 100u8,
        252u8, 202u8, 112u8, 68u8, 128u8, 0u8, 0u8, 0u8,
    ]
}

/// The address of the signature program.
///
/// Trusted: this is `solana_program::ed25519_program::id()`, the address that
/// the crate declares as `Ed25519SigVerify111111111111111111111111111`; the
/// contract gives the 32 bytes that this text stands for.
#[verifier::external_body]
fn ed25519_program_id() -> (id: Pubkey)
    ensures
        id@ == ed25519_program_key(),
{
    Pubkey { bytes: solana_program::ed25519_program::id().to_bytes() }
}

/// The header of an instruction that carries one signature over a message
/// of `msg_len` bytes, all of it in the instruction's own data: one
/// signature, no padding, then the places of the signature (48), the key
/// (16) and the message (112), each followed by the marker `0xffff` for
/// "this instruction", with the message's length after its place. Numbers
/// of two bytes have the low byte first.
pub open spec fn ed25519_header(msg_len: int) -> Seq<u8> {
    seq![
        1u8, 0u8,
        48u8, 0u8, 0xffu8, 0xffu8,
        16u8, 0u8, 0xffu8, 0xffu8,
        112u8, 0u8, (msg_len % 256) as u8, (msg_len / 256) as u8, 0xffu8, 0xffu8,
    ]
}

/// The data of the instruction that checks `sig` over `msg` under `pubkey`.
pub open spec fn ed25519_data(pubkey: Seq<u8>, msg: Seq<u8>, sig: Seq<u8>) -> Seq<u8> {
    ed25519_header(msg.len() as int) + pubkey + sig + msg
}

/// What the check of an instruction's data against the expected key,
/// message and signature ends with: the first of these that applies.
pub open spec fn ed25519_data_result(
    data: Seq<u8>,
    pubkey: Seq<u8>,
    msg: Seq<u8>,
    sig: Seq<u8>,
) -> Result<(), MaxiFarmError> {
    if data.len() <= 112 {
        Err(MaxiFarmError::TooShortDataLen)
    } else if pubkey.len() != 32 {
        Err(MaxiFarmError::InvalidPubkeyLen)
    } else if sig.len() != 64 {
        Err(MaxiFarmError::InvalidSigLen)
    } else if data.subrange(16, 48) != pubkey || data.subrange(112, data.len() as int) != msg
        || data.subrange(48, 112) != sig {
        Err(MaxiFarmError::WrongSignatureParams)
    } else if msg.len() > 0xffff {
        Err(MaxiFarmError::ArithmeticError)
    } else if data.subrange(0, 16) != ed25519_header(msg.len() as int) {
        Err(MaxiFarmError::SigVerificationFailed)
    } else {
        Ok(())
    }
}

/// What the check of an instruction ends with: it has to be addressed to
/// the signature program, name no accounts, and hold a header, a key, a
/// signature and the message, and nothing else.
pub open spec fn ed25519_ix_result(
    ix: Instruction,
    pubkey: Seq<u8>,
    msg: Seq<u8>,
    sig: Seq<u8>,
) -> Result<(), MaxiFarmError> {
    if ix.program_id@ != ed25519_program_key() || ix.num_accounts != 0 || ix.data@.len() != 112
        + msg.len() {
        Err(MaxiFarmError::InvalidMessageFormat)
    } else {
        ed25519_data_result(ix.data@, pubkey, msg, sig)
    }
}

/// The two arrays, one after the other.
pub fn merge_values(array1: &[u8], array2: &[u8]) -> (merged: Vec<u8>)
    ensures
        merged@ == array1@ + array2@,
{
    let mut merged: Vec<u8> = Vec::new();
    merged.extend_from_slice(array1);
    merged.extend_from_slice(array2);
    assert(merged@ =~= array1@ + array2@);
    merged
}

/// Whether `data` holds `expected` from `start` on.
fn holds_at(data: &[u8], start: usize, expected: &[u8]) -> (r: bool)
    requires
        start + expected@.len() <= data@.len(),
    ensures
        r == (data@.subrange(start as int, start + expected@.len()) == expected@),
{
    let n = expected.len();
    let total = data.len();
    let mut i: usize = 0;
    while i < n
        invariant
            0 <= i <= n,
            n == expected@.len(),
            total == data@.len(),
            start + n <= total,
            forall|j: int| 0 <= j < i ==> data@[start + j] == expected@[j],
        decreases n - i,
    {
        if data[start + i] != expected[i] {
            assert(data@.subrange(start as int, start + n)[i as int] != expected@[i as int]);
            return false;
        }
        i += 1;
    }
    assert(data@.subrange(start as int, start + n) =~= expected@);
    true
}

/// Whether the instruction is addressed to the signature program.
pub fn is_ed25519_ix(ix: &Instruction) -> (r: bool)
    ensures
        r == (ix.program_id@ == ed25519_program_key()),
{
    let id = ed25519_program_id();
    let same = ix.program_id == id;
    proof {
        if ix.program_id@ == id@ {
            crate::pubkey::lemma_pubkey_extensional(ix.program_id, id);
        }
    }
    same
}

/// Checks that `ix` is the instruction by which the signature program has
/// checked `sig` over `msg` under `pubkey`.
pub fn verify_ed25519_ix(ix: &Instruction, pubkey: &[u8], msg: &[u8], sig: &[u8]) -> (res: Result<
    (),
    MaxiFarmError,
>)
    ensures
        res == ed25519_ix_result(*ix, pubkey@, msg@, sig@),
{
    if !is_ed25519_ix(ix) || ix.num_accounts != 0 || ix.data.len() < 16 + 32 + 64 || ix.data.len()
        - (16 + 32 + 64) != msg.len() {
        return Err(MaxiFarmError::InvalidMessageFormat);
    }
    check_ed25519_data(ix.data.as_slice(), pubkey, msg, sig)
}

/// Checks the data of a signature instruction against the key, the message
/// and the signature that are expected.
pub fn check_ed25519_data(data: &[u8], pubkey: &[u8], msg: &[u8], sig: &[u8]) -> (res: Result<
    (),
    MaxiFarmError,
>)
    ensures
        res == ed25519_data_result(data@, pubkey@, msg@, sig@),
{
    if data.len() <= PUBKEY_OFFSET + PUBKEY_LEN + SIG_LEN {
        return Err(MaxiFarmError::TooShortDataLen);
    }
    if pubkey.len() != PUBKEY_LEN {
        return Err(MaxiFarmError::InvalidPubkeyLen);
    }
    if sig.len() != SIG_LEN {
        return Err(MaxiFarmError::InvalidSigLen);
    }
    let msg_start: usize = PUBKEY_OFFSET + PUBKEY_LEN + SIG_LEN;
    if data.len() - msg_start != msg.len() {
        assert(data@.subrange(112, data@.len() as int).len() != msg@.len());
        return Err(MaxiFarmError::WrongSignatureParams);
    }
    if !holds_at(data, PUBKEY_OFFSET, pubkey) || !holds_at(data, msg_start, msg) || !holds_at(
        data,
        PUBKEY_OFFSET + PUBKEY_LEN,
        sig,
    ) {
        return Err(MaxiFarmError::WrongSignatureParams);
    }
    if msg.len() > 0xffff {
        return Err(MaxiFarmError::ArithmeticError);
    }
    let size_low: u8 = (msg.len() % 256) as u8;
    let size_high: u8 = (msg.len() / 256) as u8;
    let header: [u8; 16] = [
        1,
        0,
        48,
        0,
        0xff,
        0xff,
        16,
        0,
        0xff,
        0xff,
        112,
        0,
        size_low,
        size_high,
        0xff,
        0xff,
    ];
    assert(header@ =~= ed25519_header(msg@.len() as int));
    if !holds_at(data, 0, header.as_slice()) {
        return Err(MaxiFarmError::SigVerificationFailed);
    }
    Ok(())
}

/// The check of an instruction's data succeeds on exactly one text: the
/// header for the message's length, then the key, the signature and the
/// message, for a key of 32 bytes, a signature of 64 bytes and a message of
/// 1 to 65535 bytes.
pub proof fn lemma_ed25519_data_accepted(
    data: Seq<u8>,
    pubkey: Seq<u8>,
    msg: Seq<u8>,
    sig: Seq<u8>,
)
    ensures
        ed25519_data_result(data, pubkey, msg, sig) is Ok <==> pubkey.len() == 32 && sig.len() == 64
            && 0 < msg.len() <= 0xffff && data == ed25519_data(pubkey, msg, sig),
{
    let expected = ed25519_data(pubkey, msg, sig);
    if pubkey.len() == 32 && sig.len() == 64 && 0 < msg.len() <= 0xffff {
        assert(expected.len() == 112 + msg.len());
        if data == expected {
            assert(data.subrange(16, 48) =~= pubkey);
            assert(data.subrange(48, 112) =~= sig);
            assert(data.subrange(112, data.len() as int) =~= msg);
            assert(data.subrange(0, 16) =~= ed25519_header(msg.len() as int));
        }
        if ed25519_data_result(data, pubkey, msg, sig) is Ok {
            assert(data.len() == 112 + msg.len());
            assert forall|i: int| 0 <= i < data.len() implies data[i] == expected[i] by {
                if i < 16 {
                    assert(data.subrange(0, 16)[i] == ed25519_header(msg.len() as int)[i]);
                } else if i < 48 {
                    assert(data.subrange(16, 48)[i - 16] == pubkey[i - 16]);
                } else if i < 112 {
                    assert(data.subrange(48, 112)[i - 48] == sig[i - 48]);
                } else {
                    assert(data.subrange(112, data.len() as int)[i - 112] == msg[i - 112]);
                }
            }
            assert(data =~= expected);
        }
    } else if ed25519_data_result(data, pubkey, msg, sig) is Ok {
        assert(data.subrange(112, data.len() as int).len() == data.len() - 112);
    }
}

} // verus!
