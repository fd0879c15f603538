use bitcell_program::{BitcellAccount, BitcellError, BitcellInstruction};

#[test]
fn decode_each_command() {
    assert_eq!(
        BitcellInstruction::unpack(&[0, 0xe8, 3, 0, 0, 30, 0, 0, 0, 50, 15, 60, 0]),
        Ok(BitcellInstruction::InitializeCell {
            initial_deposit: 1000,
            maturity_period: 30,
            risk_tolerance: 50,
            max_drawdown: 15,
            trading_frequency: 60,
        })
    );
    assert_eq!(
        BitcellInstruction::unpack(&[1, 0xf4, 1, 0, 0]),
        Ok(BitcellInstruction::DepositFunds { amount: 500 })
    );
    assert_eq!(
        BitcellInstruction::unpack(&[2, 0x64, 0, 0, 0]),
        Ok(BitcellInstruction::WithdrawProfits { amount: 100 })
    );
    assert_eq!(BitcellInstruction::unpack(&[3]), Ok(BitcellInstruction::CheckMaturity));
    assert_eq!(
        BitcellInstruction::unpack(&[4, 10, 5, 1, 1]),
        Ok(BitcellInstruction::UpdateSettings {
            risk_tolerance: 10,
            max_drawdown: 5,
            trading_frequency: 257,
        })
    );
}

#[test]
fn decode_ignores_trailing_bytes() {
    assert_eq!(
        BitcellInstruction::unpack(&[1, 1, 0, 0, 0, 99, 99]),
        Ok(BitcellInstruction::DepositFunds { amount: 1 })
    );
    assert_eq!(BitcellInstruction::unpack(&[3, 7]), Ok(BitcellInstruction::CheckMaturity));
}

#[test]
fn malformed_commands() {
    assert_eq!(BitcellInstruction::unpack(&[]), Err(BitcellError::MalformedCommand));
    assert_eq!(BitcellInstruction::unpack(&[5]), Err(BitcellError::MalformedCommand));
    assert_eq!(BitcellInstruction::unpack(&[255, 0, 0, 0, 0]), Err(BitcellError::MalformedCommand));
    assert_eq!(BitcellInstruction::unpack(&[0; 12]), Err(BitcellError::MalformedCommand));
    assert_eq!(BitcellInstruction::unpack(&[1, 0, 0, 0]), Err(BitcellError::MalformedCommand));
    assert_eq!(BitcellInstruction::unpack(&[2]), Err(BitcellError::MalformedCommand));
    assert_eq!(BitcellInstruction::unpack(&[4, 1, 1, 1]), Err(BitcellError::MalformedCommand));
}

#[test]
fn command_round_trip() {
    let commands = [
        BitcellInstruction::InitializeCell {
            initial_deposit: u32::MAX,
            maturity_period: 0x0102_0304,
            risk_tolerance: 255,
            max_drawdown: 0,
            trading_frequency: 0xabcd,
        },
        BitcellInstruction::DepositFunds { amount: 0xdead_beef },
        BitcellInstruction::WithdrawProfits { amount: 0 },
        BitcellInstruction::CheckMaturity,
        BitcellInstruction::UpdateSettings { risk_tolerance: 1, max_drawdown: 2, trading_frequency: 3 },
    ];
    let widths = [13usize, 5, 5, 1, 5];
    for (c, w) in commands.iter().zip(widths) {
        let bytes = c.pack();
        assert_eq!(bytes.len(), w);
        assert_eq!(BitcellInstruction::unpack(&bytes), Ok(*c));
    }
    assert_eq!(
        BitcellInstruction::DepositFunds { amount: 0x0403_0201 }.pack(),
        vec![1, 1, 2, 3, 4]
    );
}

fn sample() -> BitcellAccount {
    let mut owner = [0u8; 32];
    for (i, b) in owner.iter_mut().enumerate() {
        *b = i as u8;
    }
    BitcellAccount {
        owner,
        locked_funds: 0x1122_3344,
        available_profits: 7,
        maturity_timestamp: 0x0102_0304_0506_0708,
        health: 100,
        active_positions: 3,
        total_trades: 0x0a0b,
        success_rate: 9,
        is_initialized: true,
        risk_tolerance: 50,
        max_drawdown: 15,
        trading_frequency: 60,
    }
}

#[test]
fn record_layout_is_fixed() {
    let bytes = sample().pack();
    assert_eq!(bytes.len(), 58);
    assert_eq!(BitcellAccount::SIZE, 58);
    assert_eq!(bytes[0..32], sample().owner);
    assert_eq!(bytes[32..36], [0x44, 0x33, 0x22, 0x11]);
    assert_eq!(bytes[36..40], [7, 0, 0, 0]);
    assert_eq!(bytes[40..48], [8, 7, 6, 5, 4, 3, 2, 1]);
    assert_eq!(bytes[48..58], [100, 3, 0x0b, 0x0a, 9, 1, 50, 15, 60, 0]);
}

#[test]
fn record_layout_matches_borsh() {
    let rec = sample();
    type Fields = ([u8; 32], u32, u32, u64, u8, u8, u16, u8, bool, u8, u8, u16);
    let fields: Fields = borsh::from_slice(&rec.pack()).expect("borsh reads the record");
    assert_eq!(fields.0, rec.owner);
    assert_eq!(fields.1, rec.locked_funds);
    assert_eq!(fields.3, rec.maturity_timestamp);
    assert_eq!(fields.6, rec.total_trades);
    assert!(fields.8);
    assert_eq!(fields.11, rec.trading_frequency);
}

#[test]
fn record_round_trip() {
    let rec = sample();
    let mut bytes = rec.pack();
    assert_eq!(BitcellAccount::unpack(&bytes), Some(rec));
    bytes.extend_from_slice(&[1, 2, 3]);
    assert_eq!(BitcellAccount::unpack(&bytes), Some(rec));
    let dormant = BitcellAccount { is_initialized: false, ..rec };
    assert_eq!(BitcellAccount::unpack(&dormant.pack()), Some(dormant));
}

#[test]
fn record_decode_rejects_bad_input() {
    let bytes = sample().pack();
    assert_eq!(BitcellAccount::unpack(&bytes[..57]), None);
    assert_eq!(BitcellAccount::unpack(&[]), None);
    let mut bad_flag = bytes.clone();
    bad_flag[53] = 2;
    assert_eq!(BitcellAccount::unpack(&bad_flag), None);
}
