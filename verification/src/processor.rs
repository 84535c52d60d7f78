//! The instruction processor.
//!
//! One invocation takes the invoking program's identity, the sequence of
//! accounts passed by the caller, and the instruction payload. It checks
//! that the first account is owned by the program, decodes the opcode from
//! the payload's first byte, applies a checked update to the counter held
//! in the account's first four bytes, and writes the result back in place.
//! Every check precedes the write, so a failing invocation never leaves a
//! partial update behind.

use vstd::prelude::*;

use crate::account::{pubkey_eq, Account, Pubkey};
use crate::codec::{le_bytes_to_u32, lemma_le_round_trip, read_u32_le, u32_to_le_bytes,
    write_u32_le};
use crate::error::ProgramError;

verus! {

/// The operation requested by an instruction's opcode byte.
#[derive(Clone, Copy, Debug, PartialEq, Eq, Structural)]
pub enum Opcode {
    /// Add one to the counter; fails at the maximum value.
    Increment,
    /// Subtract one from the counter; fails at zero.
    Decrement,
    /// Set the counter to zero; never fails.
    Reset,
}

/// The operation an opcode byte selects: `0` is increment, `1` is
/// decrement, `2` is reset; every other byte is unknown.
pub open spec fn spec_opcode_of(b: u8) -> Option<Opcode> {
    if b == 0 {
        Some(Opcode::Increment)
    } else if b == 1 {
        Some(Opcode::Decrement)
    } else if b == 2 {
        Some(Opcode::Reset)
    } else {
        None
    }
}

/// Decodes one opcode byte.
pub fn parse_opcode(b: u8) -> (r: Option<Opcode>)
    ensures
        r == spec_opcode_of(b),
{
    match b {
        0u8 => Some(Opcode::Increment),
        1u8 => Some(Opcode::Decrement),
        2u8 => Some(Opcode::Reset),
        _ => None,
    }
}

/// The counter value an operation produces from `v`: one more for
/// increment (an error at the maximum), one less for decrement (an error
/// at zero), and zero for reset, which never fails.
pub open spec fn spec_apply(op: Opcode, v: u32) -> Result<u32, ProgramError> {
    match op {
        Opcode::Increment => if v == u32::MAX {
            Err(ProgramError::InvalidArgument)
        } else {
            Ok((v + 1) as u32)
        },
        Opcode::Decrement => if v == 0 {
            Err(ProgramError::InvalidArgument)
        } else {
            Ok((v - 1) as u32)
        },
        Opcode::Reset => Ok(0u32),
    }
}

/// Applies one operation to the counter with checked arithmetic.
pub fn apply_opcode(op: Opcode, v: u32) -> (r: Result<u32, ProgramError>)
    ensures
        r == spec_apply(op, v),
{
    match op {
        Opcode::Increment => match v.checked_add(1) {
            Some(c) => Ok(c),
            None => Err(ProgramError::InvalidArgument),
        },
        Opcode::Decrement => match v.checked_sub(1) {
            Some(c) => Ok(c),
            None => Err(ProgramError::InvalidArgument),
        },
        Opcode::Reset => Ok(0),
    }
}

/// The outcome of one invocation on an account owned by `owner` whose
/// data buffer holds `data`, invoked by `program_id` with the instruction
/// payload `payload`: either the account's new data buffer, or the exact
/// error. The checks run in this order: ownership, then the opcode, then
/// the buffer length, then the arithmetic. On success the first four
/// bytes are replaced by the new counter and the rest of the buffer is
/// kept as it was.
pub open spec fn spec_process(
    program_id: Seq<u8>,
    owner: Seq<u8>,
    payload: Seq<u8>,
    data: Seq<u8>,
) -> Result<Seq<u8>, ProgramError> {
    if owner != program_id {
        Err(ProgramError::IncorrectProgramId)
    } else if payload.len() == 0 {
        Err(ProgramError::InvalidInstructionData)
    } else {
        match spec_opcode_of(payload[0]) {
            None => Err(ProgramError::InvalidInstructionData),
            Some(op) => if data.len() < 4 {
                Err(ProgramError::InvalidAccountData)
            } else {
                match spec_apply(op, le_bytes_to_u32(data)) {
                    Err(e) => Err(e),
                    Ok(c) => Ok(u32_to_le_bytes(c) + data.skip(4)),
                }
            },
        }
    }
}

/// True when `post` is `pre` with the first account's data buffer replaced
/// by `new_data` and everything else — the other accounts, and every other
/// field of the first account — kept as it was.
pub open spec fn only_first_data_updated(
    pre: Seq<Account>,
    post: Seq<Account>,
    new_data: Seq<u8>,
) -> bool
    recommends
        pre.len() > 0,
{
    &&& post.len() == pre.len()
    &&& (forall|i: int| 1 <= i < pre.len() ==> post[i] == pre[i])
    &&& post[0].data@ == new_data
    &&& post[0].key == pre[0].key
    &&& post[0].owner == pre[0].owner
    &&& post[0].is_signer == pre[0].is_signer
    &&& post[0].is_writable == pre[0].is_writable
    &&& post[0].lamports == pre[0].lamports
}

/// Processes one instruction: takes the first account, verifies that the
/// invoking program owns it, decodes the opcode from the payload's first
/// byte, applies the checked counter update, and writes the counter back
/// into bytes `[0, 4)` of the account's buffer. On any failure the
/// accounts are left exactly as they were.
pub fn process_instruction(
    program_id: &Pubkey,
    accounts: &mut Vec<Account>,
    instruction_data: &[u8],
) -> (r: Result<(), ProgramError>)
    ensures
        old(accounts)@.len() == 0 ==> r == Err::<(), ProgramError>(ProgramError::MissingAccount)
            && final(accounts)@ == old(accounts)@,
        old(accounts)@.len() > 0 ==> (match spec_process(
            program_id@,
            old(accounts)@[0].owner@,
            instruction_data@,
            old(accounts)@[0].data@,
        ) {
            Ok(new_data) => r == Ok::<(), ProgramError>(()) && only_first_data_updated(
                old(accounts)@,
                final(accounts)@,
                new_data,
            ),
            Err(e) => r == Err::<(), ProgramError>(e) && final(accounts)@ == old(accounts)@,
        }),
{
    if accounts.len() == 0 {
        return Err(ProgramError::MissingAccount);
    }
    if !pubkey_eq(&accounts[0].owner, program_id) {
        return Err(ProgramError::IncorrectProgramId);
    }
    if instruction_data.len() == 0 {
        return Err(ProgramError::InvalidInstructionData);
    }
    let opcode = match parse_opcode(instruction_data[0]) {
        Some(op) => op,
        None => {
            return Err(ProgramError::InvalidInstructionData);
        },
    };
    if accounts[0].data.len() < 4 {
        return Err(ProgramError::InvalidAccountData);
    }
    let counter: u32 = read_u32_le(&accounts[0].data);
    let new_counter: u32 = match apply_opcode(opcode, counter) {
        Ok(c) => c,
        Err(e) => {
            return Err(e);
        },
    };
    let account = &mut accounts[0];
    write_u32_le(&mut account.data, new_counter);
    Ok(())
}

/// Law: for every counter value below the maximum, an increment
/// instruction succeeds and the stored counter becomes one more; at the
/// maximum it fails with `InvalidArgument`. Bytes past offset 4 are kept.
pub proof fn lemma_increment_adds_one(program_id: Seq<u8>, payload: Seq<u8>, data: Seq<u8>)
    requires
        data.len() >= 4,
        payload.len() > 0,
        payload[0] == 0u8,
    ensures
        le_bytes_to_u32(data) < u32::MAX ==> spec_process(program_id, program_id, payload, data)
            == Ok::<Seq<u8>, ProgramError>(
            u32_to_le_bytes((le_bytes_to_u32(data) + 1) as u32) + data.skip(4),
        ),
        le_bytes_to_u32(data) < u32::MAX ==> le_bytes_to_u32(
            u32_to_le_bytes((le_bytes_to_u32(data) + 1) as u32) + data.skip(4),
        ) == le_bytes_to_u32(data) + 1,
        le_bytes_to_u32(data) == u32::MAX ==> spec_process(program_id, program_id, payload, data)
            == Err::<Seq<u8>, ProgramError>(ProgramError::InvalidArgument),
{
    if le_bytes_to_u32(data) < u32::MAX {
        let c = (le_bytes_to_u32(data) + 1) as u32;
        lemma_le_round_trip(c);
        lemma_le_prefix(u32_to_le_bytes(c), data.skip(4));
    }
}

/// Law: for every counter value above zero, a decrement instruction
/// succeeds and the stored counter becomes one less; at zero it fails
/// with `InvalidArgument`. Bytes past offset 4 are kept.
pub proof fn lemma_decrement_subtracts_one(program_id: Seq<u8>, payload: Seq<u8>, data: Seq<u8>)
    requires
        data.len() >= 4,
        payload.len() > 0,
        payload[0] == 1u8,
    ensures
        le_bytes_to_u32(data) > 0 ==> spec_process(program_id, program_id, payload, data)
            == Ok::<Seq<u8>, ProgramError>(
            u32_to_le_bytes((le_bytes_to_u32(data) - 1) as u32) + data.skip(4),
        ),
        le_bytes_to_u32(data) > 0 ==> le_bytes_to_u32(
            u32_to_le_bytes((le_bytes_to_u32(data) - 1) as u32) + data.skip(4),
        ) == le_bytes_to_u32(data) - 1,
        le_bytes_to_u32(data) == 0 ==> spec_process(program_id, program_id, payload, data)
            == Err::<Seq<u8>, ProgramError>(ProgramError::InvalidArgument),
{
    if le_bytes_to_u32(data) > 0 {
        let c = (le_bytes_to_u32(data) - 1) as u32;
        lemma_le_round_trip(c);
        lemma_le_prefix(u32_to_le_bytes(c), data.skip(4));
    }
}

/// Law: a reset instruction always succeeds, whatever the prior counter
/// value, and the stored counter becomes zero. Bytes past offset 4 are
/// kept.
pub proof fn lemma_reset_yields_zero(program_id: Seq<u8>, payload: Seq<u8>, data: Seq<u8>)
    requires
        data.len() >= 4,
        payload.len() > 0,
        payload[0] == 2u8,
    ensures
        spec_process(program_id, program_id, payload, data) == Ok::<Seq<u8>, ProgramError>(
            u32_to_le_bytes(0u32) + data.skip(4),
        ),
        le_bytes_to_u32(u32_to_le_bytes(0u32) + data.skip(4)) == 0,
{
    lemma_le_round_trip(0u32);
    lemma_le_prefix(u32_to_le_bytes(0u32), data.skip(4));
}

/// Law: reset is idempotent. The first reset yields a buffer whose stored
/// counter is zero, and a second reset succeeds on that buffer and leaves
/// it exactly as it is, its stored counter zero both times.
pub proof fn lemma_reset_idempotent(program_id: Seq<u8>, payload: Seq<u8>, data: Seq<u8>)
    requires
        data.len() >= 4,
        payload.len() > 0,
        payload[0] == 2u8,
    ensures
        spec_process(program_id, program_id, payload, data) == Ok::<Seq<u8>, ProgramError>(
            u32_to_le_bytes(0u32) + data.skip(4),
        ),
        le_bytes_to_u32(u32_to_le_bytes(0u32) + data.skip(4)) == 0,
        spec_process(program_id, program_id, payload, u32_to_le_bytes(0u32) + data.skip(4))
            == Ok::<Seq<u8>, ProgramError>(u32_to_le_bytes(0u32) + data.skip(4)),
{
    lemma_reset_yields_zero(program_id, payload, data);
    let d1 = u32_to_le_bytes(0u32) + data.skip(4);
    lemma_reset_yields_zero(program_id, payload, d1);
    assert(d1.skip(4) =~= data.skip(4));
}

/// Law: the ownership check precedes opcode decoding. An account owned by
/// a different identity is rejected with `IncorrectProgramId` for every
/// payload, the malformed ones included, and for every buffer.
pub proof fn lemma_ownership_precedes_decoding(
    program_id: Seq<u8>,
    owner: Seq<u8>,
    payload: Seq<u8>,
    data: Seq<u8>,
)
    requires
        owner != program_id,
    ensures
        spec_process(program_id, owner, payload, data) == Err::<Seq<u8>, ProgramError>(
            ProgramError::IncorrectProgramId,
        ),
{
}

/// The stored counter of a buffer that starts with the four bytes of
/// `front` is the counter of `front` itself, whatever follows.
proof fn lemma_le_prefix(front: Seq<u8>, rest: Seq<u8>)
    requires
        front.len() == 4,
    ensures
        le_bytes_to_u32(front + rest) == le_bytes_to_u32(front),
{
}

} // verus!
