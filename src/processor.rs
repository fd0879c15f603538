use vstd::prelude::*;

use crate::account::{record_of, store, AccountView, BitcellAccount, RECORD_SIZE};
use crate::error::BitcellError;
use crate::instruction::{command_of, BitcellInstruction};

verus! {

/// Seconds in one day of a maturity period.
pub const SECONDS_PER_DAY: u64 = 86400;

/// Health of a newly created record.
pub const INITIAL_HEALTH: u8 = 100;

/// Who invokes a command, and whether the host saw their signature.
#[derive(Debug, Clone, Copy)]
pub struct Caller {
    pub key: [u8; 32],
    pub is_signer: bool,
}

/// The storage that holds a record: the program that owns it, and its bytes.
#[derive(Debug)]
pub struct CellAccount {
    pub program_owner: [u8; 32],
    pub data: Vec<u8>,
}

/// The storage as a mathematical value.
pub struct CellView {
    pub program_owner: Seq<u8>,
    pub data: Seq<u8>,
}

impl View for CellAccount {
    type V = CellView;

    open spec fn view(&self) -> CellView {
        CellView { program_owner: self.program_owner@, data: self.data@ }
    }
}

/// What a maturity check reports.
#[derive(Debug, Clone, Copy, PartialEq, Eq, Structural)]
pub enum MaturityStatus {
    /// The maturity time has come: locked funds may be released.
    Mature,
    /// The maturity time lies ahead.
    NotYetMature,
}

/// The checks that every command but creation makes, in order: the caller
/// signed, the storage belongs to the program, it holds a live record, and the
/// caller owns that record. Yields the record when all pass.
pub open spec fn authorize(program_id: Seq<u8>, caller: Caller, cell: CellView) -> Result<
    AccountView,
    BitcellError,
> {
    if !caller.is_signer {
        Err(BitcellError::MissingAuthorization)
    } else if cell.program_owner != program_id {
        Err(BitcellError::ForeignRecord)
    } else {
        match record_of(cell.data) {
            Some(rec) => if !rec.is_initialized {
                Err(BitcellError::RecordNotReady)
            } else if rec.owner != caller.key@ {
                Err(BitcellError::NotOwner)
            } else {
                Ok(rec)
            },
            None => Err(BitcellError::RecordNotReady),
        }
    }
}

/// Whether `b` already holds a live record.
pub open spec fn holds_live_record(b: Seq<u8>) -> bool {
    match record_of(b) {
        Some(rec) => rec.is_initialized,
        None => false,
    }
}

/// The record that creation writes.
pub open spec fn created_record(
    owner: Seq<u8>,
    now: u64,
    initial_deposit: u32,
    maturity_period: u32,
    risk_tolerance: u8,
    max_drawdown: u8,
    trading_frequency: u16,
) -> AccountView {
    AccountView {
        owner,
        locked_funds: initial_deposit,
        available_profits: 0,
        maturity_timestamp: (now + maturity_period * SECONDS_PER_DAY) as u64,
        health: INITIAL_HEALTH,
        active_positions: 0,
        total_trades: 0,
        success_rate: 0,
        is_initialized: true,
        risk_tolerance,
        max_drawdown,
        trading_frequency,
    }
}

/// Creation: the caller must sign and the storage must not hold a live record;
/// the maturity timestamp must fit in 64 bits.
pub open spec fn initialize_outcome(
    caller: Caller,
    cell: CellView,
    now: u64,
    initial_deposit: u32,
    maturity_period: u32,
    risk_tolerance: u8,
    max_drawdown: u8,
    trading_frequency: u16,
) -> Result<AccountView, BitcellError> {
    if !caller.is_signer {
        Err(BitcellError::MissingAuthorization)
    } else if holds_live_record(cell.data) {
        Err(BitcellError::AccountInUse)
    } else if now + maturity_period * SECONDS_PER_DAY > u64::MAX {
        Err(BitcellError::InvalidAmount)
    } else {
        Ok(
            created_record(
                caller.key@,
                now,
                initial_deposit,
                maturity_period,
                risk_tolerance,
                max_drawdown,
                trading_frequency,
            ),
        )
    }
}

/// Deposit: the locked funds grow by `amount`, if the sum fits its field.
pub open spec fn deposit_outcome(
    program_id: Seq<u8>,
    caller: Caller,
    cell: CellView,
    amount: u32,
) -> Result<AccountView, BitcellError> {
    match authorize(program_id, caller, cell) {
        Err(e) => Err(e),
        Ok(rec) => if rec.locked_funds + amount > u32::MAX {
            Err(BitcellError::InvalidAmount)
        } else {
            Ok(AccountView { locked_funds: (rec.locked_funds + amount) as u32, ..rec })
        },
    }
}

/// Withdrawal: the available profits shrink by `amount`, which may not exceed them.
pub open spec fn withdraw_outcome(
    program_id: Seq<u8>,
    caller: Caller,
    cell: CellView,
    amount: u32,
) -> Result<AccountView, BitcellError> {
    match authorize(program_id, caller, cell) {
        Err(e) => Err(e),
        Ok(rec) => if rec.available_profits < amount {
            Err(BitcellError::InsufficientFunds)
        } else {
            Ok(AccountView { available_profits: (rec.available_profits - amount) as u32, ..rec })
        },
    }
}

/// Settings update: the three policy settings are replaced, unchecked.
pub open spec fn update_settings_outcome(
    program_id: Seq<u8>,
    caller: Caller,
    cell: CellView,
    risk_tolerance: u8,
    max_drawdown: u8,
    trading_frequency: u16,
) -> Result<AccountView, BitcellError> {
    match authorize(program_id, caller, cell) {
        Err(e) => Err(e),
        Ok(rec) => Ok(AccountView { risk_tolerance, max_drawdown, trading_frequency, ..rec }),
    }
}

/// Maturity check: mature once `now` has reached the maturity timestamp.
pub open spec fn maturity_outcome(
    program_id: Seq<u8>,
    caller: Caller,
    cell: CellView,
    now: u64,
) -> Result<MaturityStatus, BitcellError> {
    match authorize(program_id, caller, cell) {
        Err(e) => Err(e),
        Ok(rec) => Ok(
            if now >= rec.maturity_timestamp {
                MaturityStatus::Mature
            } else {
                MaturityStatus::NotYetMature
            },
        ),
    }
}

/// How a command that writes left the storage's bytes and what it returned:
/// on success the new record was stored, on failure nothing changed.
pub open spec fn committed<T>(
    outcome: Result<AccountView, BitcellError>,
    before: Seq<u8>,
    after: Seq<u8>,
    r: Result<T, BitcellError>,
) -> bool {
    match outcome {
        Ok(rec) => r is Ok && after == store(before, rec) && record_of(after) == Some(rec),
        Err(e) => r == Err::<T, BitcellError>(e) && after == before,
    }
}

/// Whether two keys are the same.
fn same_key(a: &[u8; 32], b: &[u8; 32]) -> (r: bool)
    ensures
        r == (a@ == b@),
{
    let mut i: usize = 0;
    while i < 32
        invariant
            i <= 32,
            forall|k: int| 0 <= k < i ==> a@[k] == b@[k],
        decreases 32 - i,
    {
        if a[i] != b[i] {
            return false;
        }
        i = i + 1;
    }
    assert(a@ =~= b@);
    true
}

/// Makes the checks of `authorize` in its order.
fn check_authority(program_id: &[u8; 32], caller: &Caller, cell: &CellAccount) -> (r: Result<
    BitcellAccount,
    BitcellError,
>)
    ensures
        match r {
            Ok(a) => authorize(program_id@, *caller, cell@) == Ok::<AccountView, BitcellError>(
                a@,
            ),
            Err(e) => authorize(program_id@, *caller, cell@) == Err::<AccountView, BitcellError>(
                e,
            ),
        },
{
    if !caller.is_signer {
        return Err(BitcellError::MissingAuthorization);
    }
    if !same_key(&cell.program_owner, program_id) {
        return Err(BitcellError::ForeignRecord);
    }
    match BitcellAccount::unpack(cell.data.as_slice()) {
        None => Err(BitcellError::RecordNotReady),
        Some(rec) => {
            if !rec.is_initialized {
                Err(BitcellError::RecordNotReady)
            } else if !same_key(&rec.owner, &caller.key) {
                Err(BitcellError::NotOwner)
            } else {
                Ok(rec)
            }
        },
    }
}

/// Writes `rec` over the first record-sized bytes of `data`.
fn write_record(data: &mut Vec<u8>, rec: &BitcellAccount)
    ensures
        final(data)@ == store(old(data)@, rec@),
        record_of(final(data)@) == Some(rec@),
{
    let mut tail: Vec<u8> = if data.len() >= RECORD_SIZE {
        data.split_off(RECORD_SIZE)
    } else {
        Vec::new()
    };
    let mut bytes = rec.pack();
    bytes.append(&mut tail);
    proof {
        crate::account::lemma_store_round_trip(old(data)@, rec@);
    }
    assert(bytes@ =~= store(old(data)@, rec@));
    *data = bytes;
}

/// Creates the record: after the caller's signature and a check that the
/// storage holds no live record, writes a record owned by the caller whose
/// maturity lies `maturity_period` days after `now`, and tags the storage as
/// the program's.
pub fn process_initialize_cell(
    program_id: &[u8; 32],
    caller: &Caller,
    cell: &mut CellAccount,
    now: u64,
    initial_deposit: u32,
    maturity_period: u32,
    risk_tolerance: u8,
    max_drawdown: u8,
    trading_frequency: u16,
) -> (r: Result<(), BitcellError>)
    ensures
        committed(
            initialize_outcome(
                *caller,
                old(cell)@,
                now,
                initial_deposit,
                maturity_period,
                risk_tolerance,
                max_drawdown,
                trading_frequency,
            ),
            old(cell).data@,
            final(cell).data@,
            r,
        ),
        final(cell).program_owner == if r is Ok {
            *program_id
        } else {
            old(cell).program_owner
        },
{
    if !caller.is_signer {
        return Err(BitcellError::MissingAuthorization);
    }
    if let Some(existing) = BitcellAccount::unpack(cell.data.as_slice()) {
        if existing.is_initialized {
            return Err(BitcellError::AccountInUse);
        }
    }
    let period_seconds: u64 = maturity_period as u64 * SECONDS_PER_DAY;
    let maturity_timestamp = match now.checked_add(period_seconds) {
        Some(t) => t,
        None => return Err(BitcellError::InvalidAmount),
    };
    let rec = BitcellAccount {
        owner: caller.key,
        locked_funds: initial_deposit,
        available_profits: 0,
        maturity_timestamp,
        health: INITIAL_HEALTH,
        active_positions: 0,
        total_trades: 0,
        success_rate: 0,
        is_initialized: true,
        risk_tolerance,
        max_drawdown,
        trading_frequency,
    };
    write_record(&mut cell.data, &rec);
    cell.program_owner = *program_id;
    Ok(())
}

/// Adds `amount` to the locked funds of the caller's record.
pub fn process_deposit_funds(
    program_id: &[u8; 32],
    caller: &Caller,
    cell: &mut CellAccount,
    amount: u32,
) -> (r: Result<(), BitcellError>)
    ensures
        committed(
            deposit_outcome(program_id@, *caller, old(cell)@, amount),
            old(cell).data@,
            final(cell).data@,
            r,
        ),
        final(cell).program_owner == old(cell).program_owner,
{
    let mut rec = match check_authority(program_id, caller, cell) {
        Ok(rec) => rec,
        Err(e) => return Err(e),
    };
    rec.locked_funds = match rec.locked_funds.checked_add(amount) {
        Some(total) => total,
        None => return Err(BitcellError::InvalidAmount),
    };
    write_record(&mut cell.data, &rec);
    Ok(())
}

/// Takes `amount` from the available profits of the caller's record.
pub fn process_withdraw_profits(
    program_id: &[u8; 32],
    caller: &Caller,
    cell: &mut CellAccount,
    amount: u32,
) -> (r: Result<(), BitcellError>)
    ensures
        committed(
            withdraw_outcome(program_id@, *caller, old(cell)@, amount),
            old(cell).data@,
            final(cell).data@,
            r,
        ),
        final(cell).program_owner == old(cell).program_owner,
{
    let mut rec = match check_authority(program_id, caller, cell) {
        Ok(rec) => rec,
        Err(e) => return Err(e),
    };
    if rec.available_profits < amount {
        return Err(BitcellError::InsufficientFunds);
    }
    rec.available_profits = rec.available_profits - amount;
    write_record(&mut cell.data, &rec);
    Ok(())
}

/// Reports whether the caller's record has reached its maturity time at `now`.
/// The storage is only read.
pub fn process_check_maturity(
    program_id: &[u8; 32],
    caller: &Caller,
    cell: &CellAccount,
    now: u64,
) -> (r: Result<MaturityStatus, BitcellError>)
    ensures
        r == maturity_outcome(program_id@, *caller, cell@, now),
{
    let rec = match check_authority(program_id, caller, cell) {
        Ok(rec) => rec,
        Err(e) => return Err(e),
    };
    if now >= rec.maturity_timestamp {
        Ok(MaturityStatus::Mature)
    } else {
        Ok(MaturityStatus::NotYetMature)
    }
}

/// Replaces the three policy settings of the caller's record.
pub fn process_update_settings(
    program_id: &[u8; 32],
    caller: &Caller,
    cell: &mut CellAccount,
    risk_tolerance: u8,
    max_drawdown: u8,
    trading_frequency: u16,
) -> (r: Result<(), BitcellError>)
    ensures
        committed(
            update_settings_outcome(
                program_id@,
                *caller,
                old(cell)@,
                risk_tolerance,
                max_drawdown,
                trading_frequency,
            ),
            old(cell).data@,
            final(cell).data@,
            r,
        ),
        final(cell).program_owner == old(cell).program_owner,
{
    let mut rec = match check_authority(program_id, caller, cell) {
        Ok(rec) => rec,
        Err(e) => return Err(e),
    };
    rec.risk_tolerance = risk_tolerance;
    rec.max_drawdown = max_drawdown;
    rec.trading_frequency = trading_frequency;
    write_record(&mut cell.data, &rec);
    Ok(())
}

/// The new record, or the error, of a command that writes. A maturity check
/// writes nothing and is handled apart by `step`.
pub open spec fn write_outcome(
    program_id: Seq<u8>,
    caller: Caller,
    cell: CellView,
    now: u64,
    c: BitcellInstruction,
) -> Result<AccountView, BitcellError> {
    match c {
        BitcellInstruction::InitializeCell {
            initial_deposit,
            maturity_period,
            risk_tolerance,
            max_drawdown,
            trading_frequency,
        } => initialize_outcome(
            caller,
            cell,
            now,
            initial_deposit,
            maturity_period,
            risk_tolerance,
            max_drawdown,
            trading_frequency,
        ),
        BitcellInstruction::DepositFunds { amount } => deposit_outcome(
            program_id,
            caller,
            cell,
            amount,
        ),
        BitcellInstruction::WithdrawProfits { amount } => withdraw_outcome(
            program_id,
            caller,
            cell,
            amount,
        ),
        BitcellInstruction::UpdateSettings { risk_tolerance, max_drawdown, trading_frequency } =>
            update_settings_outcome(
            program_id,
            caller,
            cell,
            risk_tolerance,
            max_drawdown,
            trading_frequency,
        ),
        BitcellInstruction::CheckMaturity => Err(BitcellError::MalformedCommand),
    }
}

/// What one invocation returns and how it leaves the storage: undecodable
/// input and failed commands change nothing; a maturity check only reports; a
/// command that writes stores its new record, and creation also tags the
/// storage as the program's.
pub open spec fn step(
    program_id: Seq<u8>,
    caller: Caller,
    cell: CellView,
    now: u64,
    input: Seq<u8>,
) -> (Result<Option<MaturityStatus>, BitcellError>, CellView) {
    match command_of(input) {
        None => (Err(BitcellError::MalformedCommand), cell),
        Some(BitcellInstruction::CheckMaturity) => (
            match maturity_outcome(program_id, caller, cell, now) {
                Ok(status) => Ok(Some(status)),
                Err(e) => Err(e),
            },
            cell,
        ),
        Some(c) => match write_outcome(program_id, caller, cell, now, c) {
            Ok(rec) => (
                Ok(None),
                CellView {
                    program_owner: if c is InitializeCell {
                        program_id
                    } else {
                        cell.program_owner
                    },
                    data: store(cell.data, rec),
                },
            ),
            Err(e) => (Err(e), cell),
        },
    }
}

/// Decodes `instruction_data` and carries out the command on `cell` at time
/// `now`. A maturity check returns its report and leaves the storage as it
/// was; every other command returns `None` on success.
pub fn process_instruction(
    program_id: &[u8; 32],
    caller: &Caller,
    cell: &mut CellAccount,
    now: u64,
    instruction_data: &[u8],
) -> (r: Result<Option<MaturityStatus>, BitcellError>)
    ensures
        (r, final(cell)@) == step(program_id@, *caller, old(cell)@, now, instruction_data@),
{
    let command = match BitcellInstruction::unpack(instruction_data) {
        Ok(c) => c,
        Err(e) => return Err(e),
    };
    let done = match command {
        BitcellInstruction::InitializeCell {
            initial_deposit,
            maturity_period,
            risk_tolerance,
            max_drawdown,
            trading_frequency,
        } => process_initialize_cell(
            program_id,
            caller,
            cell,
            now,
            initial_deposit,
            maturity_period,
            risk_tolerance,
            max_drawdown,
            trading_frequency,
        ),
        BitcellInstruction::DepositFunds { amount } => process_deposit_funds(
            program_id,
            caller,
            cell,
            amount,
        ),
        BitcellInstruction::WithdrawProfits { amount } => process_withdraw_profits(
            program_id,
            caller,
            cell,
            amount,
        ),
        BitcellInstruction::CheckMaturity => {
            return match process_check_maturity(program_id, caller, cell, now) {
                Ok(status) => Ok(Some(status)),
                Err(e) => Err(e),
            };
        },
        BitcellInstruction::UpdateSettings { risk_tolerance, max_drawdown, trading_frequency } =>
            process_update_settings(
            program_id,
            caller,
            cell,
            risk_tolerance,
            max_drawdown,
            trading_frequency,
        ),
    };
    match done {
        Ok(()) => Ok(None),
        Err(e) => Err(e),
    }
}

} // verus!
