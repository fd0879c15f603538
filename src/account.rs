use vstd::bytes::*;
use vstd::prelude::*;
use vstd::slice::slice_subrange;

verus! {

/// Number of bytes that an encoded record occupies at the start of its storage.
pub const RECORD_SIZE: usize = 58;

/// Offset of the byte that says whether the record is live.
pub const INITIALIZED_AT: usize = 53;

/// The persisted state of one cell. Balances are counted in whole units as
/// unsigned integers, so every deposit and withdrawal is exact. Health, active
/// positions, total trades and success rate are set at creation and reserved
/// for a trading engine outside this program.
#[derive(Debug, Clone, Copy, PartialEq, Eq)]
pub struct BitcellAccount {
    pub owner: [u8; 32],
    pub locked_funds: u32,
    pub available_profits: u32,
    pub maturity_timestamp: u64,
    pub health: u8,
    pub active_positions: u8,
    pub total_trades: u16,
    pub success_rate: u8,
    pub is_initialized: bool,
    pub risk_tolerance: u8,
    pub max_drawdown: u8,
    pub trading_frequency: u16,
}

/// A record as a mathematical value: the owner is a byte sequence.
pub struct AccountView {
    pub owner: Seq<u8>,
    pub locked_funds: u32,
    pub available_profits: u32,
    pub maturity_timestamp: u64,
    pub health: u8,
    pub active_positions: u8,
    pub total_trades: u16,
    pub success_rate: u8,
    pub is_initialized: bool,
    pub risk_tolerance: u8,
    pub max_drawdown: u8,
    pub trading_frequency: u16,
}

impl View for BitcellAccount {
    type V = AccountView;

    open spec fn view(&self) -> AccountView {
        AccountView {
            owner: self.owner@,
            locked_funds: self.locked_funds,
            available_profits: self.available_profits,
            maturity_timestamp: self.maturity_timestamp,
            health: self.health,
            active_positions: self.active_positions,
            total_trades: self.total_trades,
            success_rate: self.success_rate,
            is_initialized: self.is_initialized,
            risk_tolerance: self.risk_tolerance,
            max_drawdown: self.max_drawdown,
            trading_frequency: self.trading_frequency,
        }
    }
}

/// The record's layout: owner, locked funds, available profits, maturity
/// timestamp, health, active positions, total trades, success rate, the live
/// flag as 0 or 1, risk tolerance, max drawdown, trading frequency; integers
/// little-endian, no padding.
pub open spec fn record_bytes(a: AccountView) -> Seq<u8> {
    a.owner + spec_u32_to_le_bytes(a.locked_funds) + spec_u32_to_le_bytes(a.available_profits)
        + spec_u64_to_le_bytes(a.maturity_timestamp) + seq![a.health, a.active_positions]
        + spec_u16_to_le_bytes(a.total_trades) + seq![
        a.success_rate,
        if a.is_initialized {
            1u8
        } else {
            0u8
        },
        a.risk_tolerance,
        a.max_drawdown,
    ] + spec_u16_to_le_bytes(a.trading_frequency)
}

/// The record held at the start of `b`, or `None` when `b` is shorter than a
/// record or its live flag is neither 0 nor 1.
pub open spec fn record_of(b: Seq<u8>) -> Option<AccountView> {
    if b.len() < RECORD_SIZE || b[INITIALIZED_AT as int] > 1 {
        None
    } else {
        Some(
            AccountView {
                owner: b.subrange(0, 32),
                locked_funds: spec_u32_from_le_bytes(b.subrange(32, 36)),
                available_profits: spec_u32_from_le_bytes(b.subrange(36, 40)),
                maturity_timestamp: spec_u64_from_le_bytes(b.subrange(40, 48)),
                health: b[48],
                active_positions: b[49],
                total_trades: spec_u16_from_le_bytes(b.subrange(50, 52)),
                success_rate: b[52],
                is_initialized: b[INITIALIZED_AT as int] == 1,
                risk_tolerance: b[54],
                max_drawdown: b[55],
                trading_frequency: spec_u16_from_le_bytes(b.subrange(56, 58)),
            },
        )
    }
}

/// `b` with its first record-sized bytes replaced by the encoding of `a`; a
/// buffer shorter than a record becomes exactly that encoding.
pub open spec fn store(b: Seq<u8>, a: AccountView) -> Seq<u8> {
    if b.len() >= RECORD_SIZE {
        record_bytes(a) + b.subrange(RECORD_SIZE as int, b.len() as int)
    } else {
        record_bytes(a)
    }
}

impl BitcellAccount {
    /// Number of bytes of an encoded record.
    pub const SIZE: usize = RECORD_SIZE;

    /// Encodes the record in its fixed layout.
    pub fn pack(&self) -> (r: Vec<u8>)
        ensures
            r@ == record_bytes(self@),
            r@.len() == RECORD_SIZE,
    {
        let mut out: Vec<u8> = Vec::new();
        out.extend_from_slice(self.owner.as_slice());
        out.append(&mut u32_to_le_bytes(self.locked_funds));
        out.append(&mut u32_to_le_bytes(self.available_profits));
        out.append(&mut u64_to_le_bytes(self.maturity_timestamp));
        out.push(self.health);
        out.push(self.active_positions);
        out.append(&mut u16_to_le_bytes(self.total_trades));
        out.push(self.success_rate);
        out.push(if self.is_initialized { 1u8 } else { 0u8 });
        out.push(self.risk_tolerance);
        out.push(self.max_drawdown);
        out.append(&mut u16_to_le_bytes(self.trading_frequency));
        assert(out@ =~= record_bytes(self@));
        out
    }

    /// Decodes the record at the start of `data`; bytes past it are ignored.
    pub fn unpack(data: &[u8]) -> (r: Option<BitcellAccount>)
        ensures
            match r {
                Some(a) => record_of(data@) == Some(a@),
                None => record_of(data@) is None,
            },
    {
        if data.len() < RECORD_SIZE || data[INITIALIZED_AT] > 1 {
            return None;
        }
        let mut owner: [u8; 32] = [0u8; 32];
        let mut i: usize = 0;
        while i < 32
            invariant
                i <= 32,
                data@.len() >= RECORD_SIZE,
                forall|k: int| 0 <= k < i ==> owner@[k] == data@[k],
            decreases 32 - i,
        {
            owner[i] = data[i];
            i = i + 1;
        }
        assert(owner@ =~= data@.subrange(0, 32));
        Some(
            BitcellAccount {
                owner,
                locked_funds: u32_from_le_bytes(slice_subrange(data, 32, 36)),
                available_profits: u32_from_le_bytes(slice_subrange(data, 36, 40)),
                maturity_timestamp: u64_from_le_bytes(slice_subrange(data, 40, 48)),
                health: data[48],
                active_positions: data[49],
                total_trades: u16_from_le_bytes(slice_subrange(data, 50, 52)),
                success_rate: data[52],
                is_initialized: data[INITIALIZED_AT] == 1,
                risk_tolerance: data[54],
                max_drawdown: data[55],
                trading_frequency: u16_from_le_bytes(slice_subrange(data, 56, 58)),
            },
        )
    }
}

/// Reading back what was stored gives the stored record, whatever followed it.
pub proof fn lemma_store_round_trip(b: Seq<u8>, a: AccountView)
    requires
        a.owner.len() == 32,
    ensures
        store(b, a).len() == if b.len() >= RECORD_SIZE {
            b.len()
        } else {
            RECORD_SIZE as nat
        },
        record_of(store(b, a)) == Some(a),
{
    lemma_auto_spec_u16_to_from_le_bytes();
    lemma_auto_spec_u32_to_from_le_bytes();
    lemma_auto_spec_u64_to_from_le_bytes();
    let s = store(b, a);
    let e = record_bytes(a);
    assert(e.len() == RECORD_SIZE);
    assert(s.subrange(0, RECORD_SIZE as int) =~= e);
    assert(s.subrange(0, 32) =~= a.owner);
    assert(s.subrange(32, 36) =~= spec_u32_to_le_bytes(a.locked_funds));
    assert(s.subrange(36, 40) =~= spec_u32_to_le_bytes(a.available_profits));
    assert(s.subrange(40, 48) =~= spec_u64_to_le_bytes(a.maturity_timestamp));
    assert(s.subrange(50, 52) =~= spec_u16_to_le_bytes(a.total_trades));
    assert(s.subrange(56, 58) =~= spec_u16_to_le_bytes(a.trading_frequency));
    assert(record_of(s) =~= Some(a));
}

} // verus!
