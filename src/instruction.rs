use vstd::bytes::*;
use vstd::prelude::*;
use vstd::slice::slice_subrange;

use crate::error::BitcellError;

verus! {

/// The five commands, as carried in the first byte of the command data.
#[derive(Debug, Clone, Copy, PartialEq, Eq, Structural)]
pub enum BitcellInstruction {
    /// Create the record, owned by the caller.
    InitializeCell {
        initial_deposit: u32,
        maturity_period: u32,
        risk_tolerance: u8,
        max_drawdown: u8,
        trading_frequency: u16,
    },
    /// Add to the locked funds.
    DepositFunds { amount: u32 },
    /// Take from the available profits.
    WithdrawProfits { amount: u32 },
    /// Report whether the maturity time has come.
    CheckMaturity,
    /// Replace the three policy settings.
    UpdateSettings { risk_tolerance: u8, max_drawdown: u8, trading_frequency: u16 },
}

/// Bytes needed by each tag: the tag itself and its fixed-width payload.
pub open spec fn command_width(tag: u8) -> int {
    if tag == 0 {
        13
    } else if tag == 1 || tag == 2 {
        5
    } else if tag == 3 {
        1
    } else {
        5
    }
}

/// The command that `b` carries, or `None` when `b` is empty, its tag is not
/// one of the five, or it is shorter than that command's width.
pub open spec fn command_of(b: Seq<u8>) -> Option<BitcellInstruction> {
    if b.len() == 0 || b[0] > 4 || b.len() < command_width(b[0]) {
        None
    } else if b[0] == 0 {
        Some(
            BitcellInstruction::InitializeCell {
                initial_deposit: spec_u32_from_le_bytes(b.subrange(1, 5)),
                maturity_period: spec_u32_from_le_bytes(b.subrange(5, 9)),
                risk_tolerance: b[9],
                max_drawdown: b[10],
                trading_frequency: spec_u16_from_le_bytes(b.subrange(11, 13)),
            },
        )
    } else if b[0] == 1 {
        Some(BitcellInstruction::DepositFunds { amount: spec_u32_from_le_bytes(b.subrange(1, 5)) })
    } else if b[0] == 2 {
        Some(
            BitcellInstruction::WithdrawProfits { amount: spec_u32_from_le_bytes(b.subrange(1, 5)) },
        )
    } else if b[0] == 3 {
        Some(BitcellInstruction::CheckMaturity)
    } else {
        Some(
            BitcellInstruction::UpdateSettings {
                risk_tolerance: b[1],
                max_drawdown: b[2],
                trading_frequency: spec_u16_from_le_bytes(b.subrange(3, 5)),
            },
        )
    }
}

/// The bytes of a command: its tag, then its fields in order, little-endian.
pub open spec fn command_bytes(c: BitcellInstruction) -> Seq<u8> {
    match c {
        BitcellInstruction::InitializeCell {
            initial_deposit,
            maturity_period,
            risk_tolerance,
            max_drawdown,
            trading_frequency,
        } => seq![0u8] + spec_u32_to_le_bytes(initial_deposit) + spec_u32_to_le_bytes(
            maturity_period,
        ) + seq![risk_tolerance, max_drawdown] + spec_u16_to_le_bytes(trading_frequency),
        BitcellInstruction::DepositFunds { amount } => seq![1u8] + spec_u32_to_le_bytes(amount),
        BitcellInstruction::WithdrawProfits { amount } => seq![2u8] + spec_u32_to_le_bytes(amount),
        BitcellInstruction::CheckMaturity => seq![3u8],
        BitcellInstruction::UpdateSettings { risk_tolerance, max_drawdown, trading_frequency } =>
            seq![4u8, risk_tolerance, max_drawdown] + spec_u16_to_le_bytes(trading_frequency),
    }
}

impl BitcellInstruction {
    /// Decodes command data; bytes past the command's width are ignored.
    pub fn unpack(data: &[u8]) -> (r: Result<BitcellInstruction, BitcellError>)
        ensures
            match command_of(data@) {
                Some(c) => r == Ok::<BitcellInstruction, BitcellError>(c),
                None => r == Err::<BitcellInstruction, BitcellError>(
                    BitcellError::MalformedCommand,
                ),
            },
    {
        if data.len() == 0 {
            return Err(BitcellError::MalformedCommand);
        }
        let tag = data[0];
        if tag == 0 {
            if data.len() < 13 {
                return Err(BitcellError::MalformedCommand);
            }
            Ok(
                BitcellInstruction::InitializeCell {
                    initial_deposit: u32_from_le_bytes(slice_subrange(data, 1, 5)),
                    maturity_period: u32_from_le_bytes(slice_subrange(data, 5, 9)),
                    risk_tolerance: data[9],
                    max_drawdown: data[10],
                    trading_frequency: u16_from_le_bytes(slice_subrange(data, 11, 13)),
                },
            )
        } else if tag == 1 || tag == 2 {
            if data.len() < 5 {
                return Err(BitcellError::MalformedCommand);
            }
            let amount = u32_from_le_bytes(slice_subrange(data, 1, 5));
            if tag == 1 {
                Ok(BitcellInstruction::DepositFunds { amount })
            } else {
                Ok(BitcellInstruction::WithdrawProfits { amount })
            }
        } else if tag == 3 {
            Ok(BitcellInstruction::CheckMaturity)
        } else if tag == 4 {
            if data.len() < 5 {
                return Err(BitcellError::MalformedCommand);
            }
            Ok(
                BitcellInstruction::UpdateSettings {
                    risk_tolerance: data[1],
                    max_drawdown: data[2],
                    trading_frequency: u16_from_le_bytes(slice_subrange(data, 3, 5)),
                },
            )
        } else {
            Err(BitcellError::MalformedCommand)
        }
    }

    /// Encodes the command as `unpack` reads it.
    pub fn pack(&self) -> (r: Vec<u8>)
        ensures
            r@ == command_bytes(*self),
    {
        let mut out: Vec<u8> = Vec::new();
        match *self {
            BitcellInstruction::InitializeCell {
                initial_deposit,
                maturity_period,
                risk_tolerance,
                max_drawdown,
                trading_frequency,
            } => {
                out.push(0u8);
                out.append(&mut u32_to_le_bytes(initial_deposit));
                out.append(&mut u32_to_le_bytes(maturity_period));
                out.push(risk_tolerance);
                out.push(max_drawdown);
                out.append(&mut u16_to_le_bytes(trading_frequency));
            },
            BitcellInstruction::DepositFunds { amount } => {
                out.push(1u8);
                out.append(&mut u32_to_le_bytes(amount));
            },
            BitcellInstruction::WithdrawProfits { amount } => {
                out.push(2u8);
                out.append(&mut u32_to_le_bytes(amount));
            },
            BitcellInstruction::CheckMaturity => {
                out.push(3u8);
            },
            BitcellInstruction::UpdateSettings { risk_tolerance, max_drawdown, trading_frequency } => {
                out.push(4u8);
                out.push(risk_tolerance);
                out.push(max_drawdown);
                out.append(&mut u16_to_le_bytes(trading_frequency));
            },
        }
        assert(out@ =~= command_bytes(*self));
        out
    }
}

/// Decoding the encoding of a command gives the command back.
pub proof fn lemma_command_round_trip(c: BitcellInstruction)
    ensures
        command_of(command_bytes(c)) == Some(c),
{
    lemma_auto_spec_u32_to_from_le_bytes();
    lemma_auto_spec_u16_to_from_le_bytes();
    let b = command_bytes(c);
    match c {
        BitcellInstruction::InitializeCell {
            initial_deposit,
            maturity_period,
            risk_tolerance,
            max_drawdown,
            trading_frequency,
        } => {
            assert(b.subrange(1, 5) =~= spec_u32_to_le_bytes(initial_deposit));
            assert(b.subrange(5, 9) =~= spec_u32_to_le_bytes(maturity_period));
            assert(b.subrange(11, 13) =~= spec_u16_to_le_bytes(trading_frequency));
        },
        BitcellInstruction::DepositFunds { amount } => {
            assert(b.subrange(1, 5) =~= spec_u32_to_le_bytes(amount));
        },
        BitcellInstruction::WithdrawProfits { amount } => {
            assert(b.subrange(1, 5) =~= spec_u32_to_le_bytes(amount));
        },
        BitcellInstruction::CheckMaturity => {},
        BitcellInstruction::UpdateSettings { risk_tolerance, max_drawdown, trading_frequency } => {
            assert(b.subrange(3, 5) =~= spec_u16_to_le_bytes(trading_frequency));
        },
    }
}

} // verus!
