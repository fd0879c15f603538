use vstd::prelude::*;

verus! {

/// Why a command was refused. Every failure leaves the record as it was.
#[derive(Debug, Clone, Copy, PartialEq, Eq, Structural)]
pub enum BitcellError {
    /// The command bytes are empty, too short, or carry an unknown tag.
    MalformedCommand,
    /// The caller did not sign the invocation.
    MissingAuthorization,
    /// The record's storage is not owned by this program.
    ForeignRecord,
    /// The storage does not hold a live record.
    RecordNotReady,
    /// The caller is not the record's owner.
    NotOwner,
    /// A withdrawal asks for more than the available profits.
    InsufficientFunds,
    /// The storage already holds a live record, so it cannot be created again.
    AccountInUse,
    /// A balance or a timestamp would not fit its field.
    InvalidAmount,
}

} // verus!
