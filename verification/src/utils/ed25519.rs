//! Checking a claim's signature against the Ed25519 verification instruction
//! that accompanies it in the same transaction.
//!
//! The host ledger verifies every Ed25519 instruction of a transaction before
//! any program runs. A claim is therefore signed by the authority exactly
//! when the companion instruction is addressed to the Ed25519 program and
//! carries, in the program's data layout, the authority's key, the claim's
//! signature and the claim's digest.

use vstd::prelude::*;
use crate::bytes::{append_bytes, bytes_equal};
use crate::errors::ClaimErrorCode;
use crate::state::{Identity, Instruction};

verus! {

/// Offset of the public key in the instruction data; the header before it is
/// the signature count, a padding byte and seven 16-bit offsets.
pub const PUBLIC_KEY_OFFSET: usize = 16;

/// Offset of the signature in the instruction data.
pub const SIGNATURE_OFFSET: usize = 48;

/// Offset of the message in the instruction data.
pub const MESSAGE_DATA_OFFSET: usize = 112;

/// Length of a public key.
pub const PUBLIC_KEY_LEN: usize = 32;

/// Length of a signature.
pub const SIGNATURE_LEN: usize = 64;

/// Longest message whose size the header can state.
pub const MAX_MESSAGE_LEN: usize = 65535;

/// Position in the transaction of the instruction that must carry the
/// signature of a claim.
pub const SIGNATURE_INSTRUCTION_INDEX: usize = 2;

/// Address of the Ed25519 signature-verification program.
pub open spec fn ed25519_program_id() -> Seq<u8> {
    seq![
        3u8, 125, 70, 214, 124, 147, 251, 190, 18, 249, 66, 143, 131, 141, 64, 255,
        5, 112, 116, 73, 39, 244, 138, 100, 252, 202, 112, 68, 128, 0, 0, 0,
    ]
}

/// Address of the Ed25519 signature-verification program.
pub fn ed25519_program() -> (id: Identity)
    ensures
        id@ == ed25519_program_id(),
{
    let bytes: [u8; 32] = [
        3, 125, 70, 214, 124, 147, 251, 190, 18, 249, 66, 143, 131, 141, 64, 255,
        5, 112, 116, 73, 39, 244, 138, 100, 252, 202, 112, 68, 128, 0, 0, 0,
    ];
    assert(bytes@ =~= ed25519_program_id());
    Identity::new(bytes)
}

/// The 16 header bytes of an instruction that carries one signature over a
/// message of `message_len` bytes, with key, signature and message stored in
/// the instruction itself (instruction index `0xffff`), in that order.
/// Offsets and the size are 16-bit little-endian.
pub open spec fn ed25519_header(message_len: int) -> Seq<u8> {
    seq![
        1u8, 0u8,
        48u8, 0u8,
        255u8, 255u8,
        16u8, 0u8,
        255u8, 255u8,
        112u8, 0u8,
        (message_len % 256) as u8, (message_len / 256) as u8,
        255u8, 255u8,
    ]
}

/// The data of the instruction that asks the Ed25519 program to verify
/// `signature` over `message` under `pubkey`.
pub open spec fn ed25519_instruction_data(
    pubkey: Seq<u8>,
    signature: Seq<u8>,
    message: Seq<u8>,
) -> Seq<u8> {
    ed25519_header(message.len() as int) + pubkey + signature + message
}

/// Where the parts of the instruction data lie: the key, the signature and
/// the message stand at the offsets that the header states for them, and
/// the header states one signature and the message's size.
pub proof fn lemma_ed25519_instruction_layout(pubkey: Seq<u8>, signature: Seq<u8>, message: Seq<u8>)
    requires
        pubkey.len() == PUBLIC_KEY_LEN,
        signature.len() == SIGNATURE_LEN,
        message.len() <= MAX_MESSAGE_LEN,
    ensures
        ({
            let data = ed25519_instruction_data(pubkey, signature, message);
            &&& data.len() == MESSAGE_DATA_OFFSET + message.len()
            &&& data[0] == 1
            &&& data[2] + 256 * data[3] == SIGNATURE_OFFSET
            &&& data[6] + 256 * data[7] == PUBLIC_KEY_OFFSET
            &&& data[10] + 256 * data[11] == MESSAGE_DATA_OFFSET
            &&& data[12] + 256 * data[13] == message.len()
            &&& data.subrange(PUBLIC_KEY_OFFSET as int, SIGNATURE_OFFSET as int) == pubkey
            &&& data.subrange(SIGNATURE_OFFSET as int, MESSAGE_DATA_OFFSET as int) == signature
            &&& data.subrange(MESSAGE_DATA_OFFSET as int, data.len() as int) == message
        }),
{
    let data = ed25519_instruction_data(pubkey, signature, message);
    assert(data.subrange(PUBLIC_KEY_OFFSET as int, SIGNATURE_OFFSET as int) =~= pubkey);
    assert(data.subrange(SIGNATURE_OFFSET as int, MESSAGE_DATA_OFFSET as int) =~= signature);
    assert(data.subrange(MESSAGE_DATA_OFFSET as int, data.len() as int) =~= message);
}

/// True when `ix` is the Ed25519 verification of `sig` over `msg` under
/// `pubkey`, and of nothing else.
pub open spec fn ed25519_ix_verifies(
    ix: Instruction,
    pubkey: Seq<u8>,
    msg: Seq<u8>,
    sig: Seq<u8>,
) -> bool {
    &&& ix.program_id@ == ed25519_program_id()
    &&& ix.accounts@.len() == 0
    &&& pubkey.len() == PUBLIC_KEY_LEN
    &&& sig.len() == SIGNATURE_LEN
    &&& msg.len() <= MAX_MESSAGE_LEN
    &&& ix.data@ == ed25519_instruction_data(pubkey, sig, msg)
}

/// Builds the data of an Ed25519 verification instruction.
pub fn build_ed25519_instruction_data(pubkey: &[u8], sig: &[u8], msg: &[u8]) -> (data: Vec<u8>)
    requires
        msg@.len() <= MAX_MESSAGE_LEN,
    ensures
        data@ == ed25519_instruction_data(pubkey@, sig@, msg@),
{
    let len: usize = msg.len();
    let low: u8 = (len % 256) as u8;
    let high: u8 = (len / 256) as u8;
    let header: [u8; 16] = [1, 0, 48, 0, 255, 255, 16, 0, 255, 255, 112, 0, low, high, 255, 255];
    assert(header@ =~= ed25519_header(msg@.len() as int));
    let mut data: Vec<u8> = Vec::new();
    append_bytes(&mut data, header.as_slice());
    append_bytes(&mut data, pubkey);
    append_bytes(&mut data, sig);
    append_bytes(&mut data, msg);
    assert(Seq::<u8>::empty() + header@ =~= header@);
    data
}

/// Accepts exactly the instructions that [`ed25519_ix_verifies`] describes;
/// every other one is a failed signature verification.
pub fn verify_ed25519_ix(ix: &Instruction, pubkey: &[u8], msg: &[u8], sig: &[u8]) -> (res: Result<
    (),
    ClaimErrorCode,
>)
    ensures
        ed25519_ix_verifies(*ix, pubkey@, msg@, sig@) ==> res == Ok::<(), ClaimErrorCode>(()),
        !ed25519_ix_verifies(*ix, pubkey@, msg@, sig@) ==> res == Err::<(), ClaimErrorCode>(
            ClaimErrorCode::SigVerificationFailed,
        ),
{
    let program = ed25519_program();
    if !ix.program_id.same_as(&program) || ix.accounts.len() != 0 {
        return Err(ClaimErrorCode::SigVerificationFailed);
    }
    if pubkey.len() != PUBLIC_KEY_LEN || sig.len() != SIGNATURE_LEN || msg.len()
        > MAX_MESSAGE_LEN {
        return Err(ClaimErrorCode::SigVerificationFailed);
    }
    let expected = build_ed25519_instruction_data(pubkey, sig, msg);
    if !bytes_equal(ix.data.as_slice(), expected.as_slice()) {
        return Err(ClaimErrorCode::SigVerificationFailed);
    }
    Ok(())
}

/// True when the transaction carries, at the position reserved for it, the
/// Ed25519 verification of `signature` over `digest` under `authority`.
pub open spec fn signature_verified(
    instructions: Seq<Instruction>,
    authority: Seq<u8>,
    digest: Seq<u8>,
    signature: Seq<u8>,
) -> bool {
    &&& instructions.len() > SIGNATURE_INSTRUCTION_INDEX
    &&& ed25519_ix_verifies(
        instructions[SIGNATURE_INSTRUCTION_INDEX as int],
        authority,
        digest,
        signature,
    )
}

/// Checks the signature of a claim: the digest must have been signed by the
/// authority, as witnessed by the companion instruction. A transaction
/// without that instruction fails like a wrong signature.
pub fn verify_signature(
    instructions: &Vec<Instruction>,
    authority: &Identity,
    digest: &[u8; 32],
    signature: &[u8; 64],
) -> (res: Result<(), ClaimErrorCode>)
    ensures
        signature_verified(instructions@, authority@, digest@, signature@) ==> res == Ok::<
            (),
            ClaimErrorCode,
        >(()),
        !signature_verified(instructions@, authority@, digest@, signature@) ==> res == Err::<
            (),
            ClaimErrorCode,
        >(ClaimErrorCode::SigVerificationFailed),
{
    if instructions.len() <= SIGNATURE_INSTRUCTION_INDEX {
        return Err(ClaimErrorCode::SigVerificationFailed);
    }
    verify_ed25519_ix(
        &instructions[SIGNATURE_INSTRUCTION_INDEX],
        authority.bytes.as_slice(),
        digest.as_slice(),
        signature.as_slice(),
    )
}

} // verus!
