//! A persisted financial cell: a fixed-layout account record, a decoder for the
//! five commands that act on it, and the handlers that carry out each command
//! under the owner's authorization.
pub mod instruction;
pub mod account;
pub mod error;
pub mod processor;
pub mod lemmas;

pub use account::BitcellAccount;
pub use error::BitcellError;
pub use instruction::BitcellInstruction;
pub use processor::{
    process_check_maturity, process_deposit_funds, process_initialize_cell, process_instruction,
    process_update_settings, process_withdraw_profits, Caller, CellAccount, MaturityStatus,
};
