use vstd::bytes::spec_u64_from_le_bytes;
use vstd::bytes::u64_from_le_bytes;
use vstd::prelude::*;
use vstd::slice::slice_index_get;
use vstd::slice::slice_subrange;

use crate::error::EscrowError;

verus! {

/// A validated escrow command, decoded from a wire buffer by
/// [`EscrowInstruction::unpack`].
///
/// The set of commands is closed: exactly these two variants exist, with no
/// forward-compatible "unknown" variant. Each variant carries the fixed,
/// order-significant list of accounts the executing collaborator must
/// resolve; the codec itself never sees accounts, it only guarantees that a
/// decoded command carries the amount the collaborator needs to enforce the
/// role contract.
#[derive(Clone, Copy, Debug, PartialEq, Eq, Structural)]
pub enum EscrowInstruction {
    /// Starts a trade: the initializer deposits an asset into protocol
    /// custody and records the counter-amount they demand in exchange.
    ///
    /// Accounts expected, in order:
    ///
    /// 0. `[signer]` the initializer
    /// 1. `[writable]` temporary token account, created and funded by the
    ///    initializer before this command, to be moved into custody
    /// 2. `[]` the initializer's token account that will receive the
    ///    counter-asset
    /// 3. `[writable]` the escrow record account
    /// 4. `[]` the rent sysvar
    /// 5. `[]` the token program
    InitEscrow {
        /// Amount, in the counter-asset's smallest unit, the initializer
        /// wants to receive in exchange for the deposited asset.
        amount: u64,
    },

    /// Accepts an open trade: the taker supplies the counter-asset and both
    /// legs of the swap settle atomically with the record's destruction.
    ///
    /// Accounts expected, in order:
    ///
    /// 0. `[signer]` the taker
    /// 1. `[writable]` the taker's token account for the token they send
    /// 2. `[writable]` the taker's token account that will receive the
    ///    escrowed asset
    /// 3. `[writable]` the custody temp token account to drain and close
    /// 4. `[writable]` the initializer's main account, which receives the
    ///    reclaimed rent
    /// 5. `[writable]` the initializer's token account that will receive the
    ///    counter-asset
    /// 6. `[writable]` the escrow record account, to be closed
    /// 7. `[]` the token program
    /// 8. `[]` the protocol-derived custody authority
    Exchange {
        /// Amount, in the units of the token the taker sends, the taker
        /// expects to be paid in the other token.
        amount: u64,
    },
}

/// What a whole command buffer decodes to: byte 0 is the tag (`0` for
/// [`EscrowInstruction::InitEscrow`], `1` for
/// [`EscrowInstruction::Exchange`]), bytes 1..9 are the amount as a
/// little-endian unsigned 64-bit integer, and anything past byte 9 is
/// ignored. Every other buffer is rejected with
/// [`EscrowError::InvalidInstruction`].
pub open spec fn spec_unpack(input: Seq<u8>) -> Result<EscrowInstruction, EscrowError> {
    if input.len() >= 9 && input[0] == 0u8 {
        Ok(EscrowInstruction::InitEscrow { amount: spec_u64_from_le_bytes(input.subrange(1, 9)) })
    } else if input.len() >= 9 && input[0] == 1u8 {
        Ok(EscrowInstruction::Exchange { amount: spec_u64_from_le_bytes(input.subrange(1, 9)) })
    } else {
        Err(EscrowError::InvalidInstruction)
    }
}

impl EscrowInstruction {
    /// Unpack a byte buffer into an [`EscrowInstruction`].
    ///
    /// Total over its error type: every buffer, of any length, either
    /// decodes to exactly one fully populated command or is rejected with
    /// the single error kind. All `2^64` amounts are acceptable, zero and
    /// the maximum included.
    pub fn unpack(input: &[u8]) -> (r: Result<EscrowInstruction, EscrowError>)
        ensures
            r == spec_unpack(input@),
            input@.len() >= 9 && input@[0] == 0 ==> r == Ok::<EscrowInstruction, EscrowError>(
                EscrowInstruction::InitEscrow {
                    amount: spec_u64_from_le_bytes(input@.subrange(1, 9)),
                },
            ),
            input@.len() >= 9 && input@[0] == 1 ==> r == Ok::<EscrowInstruction, EscrowError>(
                EscrowInstruction::Exchange {
                    amount: spec_u64_from_le_bytes(input@.subrange(1, 9)),
                },
            ),
            input@.len() == 0 ==> r == Err::<EscrowInstruction, EscrowError>(
                EscrowError::InvalidInstruction,
            ),
            1 <= input@.len() < 9 ==> r == Err::<EscrowInstruction, EscrowError>(
                EscrowError::InvalidInstruction,
            ),
            input@.len() >= 1 && input@[0] != 0 && input@[0] != 1 ==> r == Err::<
                EscrowInstruction,
                EscrowError,
            >(EscrowError::InvalidInstruction),
    {
        if input.len() == 0 {
            return Err(EscrowError::InvalidInstruction);
        }
        let tag: u8 = *slice_index_get(input, 0);
        let rest: &[u8] = slice_subrange(input, 1, input.len());
        proof {
            if input@.len() >= 9 {
                assert(rest@.subrange(0, 8) =~= input@.subrange(1, 9));
            }
        }
        match tag {
            0 => match Self::unpack_amount(rest) {
                Ok(amount) => Ok(EscrowInstruction::InitEscrow { amount }),
                Err(e) => Err(e),
            },
            1 => match Self::unpack_amount(rest) {
                Ok(amount) => Ok(EscrowInstruction::Exchange { amount }),
                Err(e) => Err(e),
            },
            _ => Err(EscrowError::InvalidInstruction),
        }
    }

    /// Read the amount field: the first eight bytes of `input`, interpreted
    /// as a little-endian unsigned 64-bit integer. No range check beyond the
    /// bit width applies.
    fn unpack_amount(input: &[u8]) -> (r: Result<u64, EscrowError>)
        ensures
            input@.len() >= 8 ==> r == Ok::<u64, EscrowError>(
                spec_u64_from_le_bytes(input@.subrange(0, 8)),
            ),
            input@.len() < 8 ==> r == Err::<u64, EscrowError>(EscrowError::InvalidInstruction),
    {
        if input.len() < 8 {
            return Err(EscrowError::InvalidInstruction);
        }
        let bytes: &[u8] = slice_subrange(input, 0, 8);
        Ok(u64_from_le_bytes(bytes))
    }
}

/// Trailing bytes never affect the decoded result: once a buffer holds the
/// tag and the full amount field (nine bytes), appending any suffix leaves
/// the decode unchanged.
pub proof fn lemma_unpack_ignores_trailing_bytes(buf: Seq<u8>, extra: Seq<u8>)
    requires
        buf.len() >= 9,
    ensures
        spec_unpack(buf + extra) == spec_unpack(buf),
{
    let ext = buf + extra;
    assert(ext[0] == buf[0]);
    assert(ext.subrange(1, 9) =~= buf.subrange(1, 9));
}

} // verus!
