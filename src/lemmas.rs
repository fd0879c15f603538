use vstd::prelude::*;

use crate::account::{lemma_store_round_trip, record_of, AccountView};
use crate::error::BitcellError;
use crate::instruction::{command_bytes, command_of, lemma_command_round_trip, BitcellInstruction};
use crate::processor::{
    authorize, holds_live_record, step, write_outcome, Caller, CellView, MaturityStatus,
};

verus! {

/// A maturity check never changes the storage, so checking again at the same
/// time gives the same report on the same storage, however often it is done.
pub proof fn lemma_maturity_check_is_read_only(
    program_id: Seq<u8>,
    caller: Caller,
    cell: CellView,
    now: u64,
    input: Seq<u8>,
)
    requires
        command_of(input) == Some(BitcellInstruction::CheckMaturity),
    ensures
        step(program_id, caller, cell, now, input).1 == cell,
        step(program_id, caller, step(program_id, caller, cell, now, input).1, now, input) == step(
            program_id,
            caller,
            cell,
            now,
            input,
        ),
{
}

/// A deposit that passes the checks adds exactly `amount` to the locked funds
/// and changes no other field; one that would overflow the field, or fails a
/// check, changes nothing.
pub proof fn lemma_deposit_adds_amount(
    program_id: Seq<u8>,
    caller: Caller,
    cell: CellView,
    now: u64,
    amount: u32,
)
    ensures
        ({
            let input = command_bytes(BitcellInstruction::DepositFunds { amount });
            let (r, after) = step(program_id, caller, cell, now, input);
            match authorize(program_id, caller, cell) {
                Ok(rec) => if rec.locked_funds + amount <= u32::MAX {
                    &&& r == Ok::<Option<MaturityStatus>, BitcellError>(None)
                    &&& after.program_owner == cell.program_owner
                    &&& record_of(after.data) == Some(
                        AccountView { locked_funds: (rec.locked_funds + amount) as u32, ..rec },
                    )
                    &&& record_of(after.data).unwrap().locked_funds == rec.locked_funds + amount
                } else {
                    r == Err::<Option<MaturityStatus>, BitcellError>(BitcellError::InvalidAmount)
                        && after == cell
                },
                Err(e) => r == Err::<Option<MaturityStatus>, BitcellError>(e) && after == cell,
            }
        }),
{
    let c = BitcellInstruction::DepositFunds { amount };
    lemma_command_round_trip(c);
    if let Ok(rec) = authorize(program_id, caller, cell) {
        let new_rec = AccountView { locked_funds: (rec.locked_funds + amount) as u32, ..rec };
        lemma_store_round_trip(cell.data, new_rec);
    }
}

/// A withdrawal never takes the available profits below zero: asking for more
/// than they hold fails with `InsufficientFunds` and changes nothing, and a
/// withdrawal that passes leaves them reduced by exactly `amount`.
pub proof fn lemma_withdraw_never_overdraws(
    program_id: Seq<u8>,
    caller: Caller,
    cell: CellView,
    now: u64,
    amount: u32,
)
    ensures
        ({
            let input = command_bytes(BitcellInstruction::WithdrawProfits { amount });
            let (r, after) = step(program_id, caller, cell, now, input);
            match authorize(program_id, caller, cell) {
                Ok(rec) => if amount > rec.available_profits {
                    r == Err::<Option<MaturityStatus>, BitcellError>(
                        BitcellError::InsufficientFunds,
                    ) && after == cell
                } else {
                    &&& r == Ok::<Option<MaturityStatus>, BitcellError>(None)
                    &&& after.program_owner == cell.program_owner
                    &&& record_of(after.data) == Some(
                        AccountView {
                            available_profits: (rec.available_profits - amount) as u32,
                            ..rec
                        },
                    )
                    &&& record_of(after.data).unwrap().available_profits >= 0
                    &&& record_of(after.data).unwrap().available_profits == rec.available_profits
                        - amount
                },
                Err(e) => r == Err::<Option<MaturityStatus>, BitcellError>(e) && after == cell,
            }
        }),
{
    let c = BitcellInstruction::WithdrawProfits { amount };
    lemma_command_round_trip(c);
    if let Ok(rec) = authorize(program_id, caller, cell) {
        if amount <= rec.available_profits {
            let new_rec = AccountView {
                available_profits: (rec.available_profits - amount) as u32,
                ..rec
            };
            lemma_store_round_trip(cell.data, new_rec);
        }
    }
}

/// Creating a record where a live one already stands fails and leaves the
/// storage, and so every field of the record, as it was.
pub proof fn lemma_created_only_once(
    program_id: Seq<u8>,
    caller: Caller,
    cell: CellView,
    now: u64,
    initial_deposit: u32,
    maturity_period: u32,
    risk_tolerance: u8,
    max_drawdown: u8,
    trading_frequency: u16,
)
    requires
        holds_live_record(cell.data),
    ensures
        ({
            let input = command_bytes(
                BitcellInstruction::InitializeCell {
                    initial_deposit,
                    maturity_period,
                    risk_tolerance,
                    max_drawdown,
                    trading_frequency,
                },
            );
            let (r, after) = step(program_id, caller, cell, now, input);
            &&& r is Err
            &&& after == cell
        }),
{
    lemma_command_round_trip(
        BitcellInstruction::InitializeCell {
            initial_deposit,
            maturity_period,
            risk_tolerance,
            max_drawdown,
            trading_frequency,
        },
    );
}

/// Whether `c` is one of the commands that only the owner may make to change
/// the record: a deposit, a withdrawal or a settings update.
pub open spec fn is_owner_change(c: BitcellInstruction) -> bool {
    c is DepositFunds || c is WithdrawProfits || c is UpdateSettings
}

/// A deposit, withdrawal or settings update from anyone but the record's owner
/// changes nothing; once the caller has signed and the storage holds a live
/// record of this program, it fails with `NotOwner`.
pub proof fn lemma_only_owner_changes_record(
    program_id: Seq<u8>,
    caller: Caller,
    cell: CellView,
    now: u64,
    input: Seq<u8>,
)
    requires
        command_of(input) matches Some(c) && is_owner_change(c),
        record_of(cell.data) matches Some(rec) && rec.owner != caller.key@,
    ensures
        step(program_id, caller, cell, now, input).0 is Err,
        step(program_id, caller, cell, now, input).1 == cell,
        caller.is_signer && cell.program_owner == program_id && holds_live_record(cell.data)
            ==> step(program_id, caller, cell, now, input).0 == Err::<
            Option<MaturityStatus>,
            BitcellError,
        >(BitcellError::NotOwner),
{
}

/// Once a record is live, no invocation changes its owner or its maturity
/// timestamp, and it stays live.
pub proof fn lemma_live_record_keeps_owner_and_maturity(
    program_id: Seq<u8>,
    caller: Caller,
    cell: CellView,
    now: u64,
    input: Seq<u8>,
)
    requires
        holds_live_record(cell.data),
    ensures
        ({
            let after = step(program_id, caller, cell, now, input).1;
            let before = record_of(cell.data).unwrap();
            &&& holds_live_record(after.data)
            &&& record_of(after.data).unwrap().owner == before.owner
            &&& record_of(after.data).unwrap().maturity_timestamp == before.maturity_timestamp
        }),
{
    if let Some(c) = command_of(input) {
        if !(c is CheckMaturity) {
            if let Ok(rec) = write_outcome(program_id, caller, cell, now, c) {
                lemma_store_round_trip(cell.data, rec);
            }
        }
    }
}

} // verus!
