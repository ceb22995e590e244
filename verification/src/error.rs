use vstd::prelude::*;

verus! {

/// Why an operation on a pool was refused.
#[derive(Clone, Copy, Debug, PartialEq, Eq, Structural)]
pub enum ErrorCode {
    /// The wager amount is zero.
    InvalidAmount,
    /// At pool creation, the custody account does not hold the pool's asset
    /// or is not controlled by the pool's derived authority.
    AccountMismatch,
    /// At settlement, the supplied accounts are not the ones bound to the pool.
    PoolMismatch,
    /// The pool slot already holds a record.
    AlreadyInitialized,
    /// The ledger refuses one of the transfers of the settlement.
    TransferFailure,
    /// A product in the payout computation does not fit in sixty-four bits.
    ArithmeticOverflow,
}

impl ErrorCode {
    /// The text that describes the refusal.
    pub open spec fn message_text(self) -> Seq<char> {
        match self {
            ErrorCode::InvalidAmount => "Amount must be greater than zero."@,
            ErrorCode::AccountMismatch => "Custody account does not match the asset or the derived authority."@,
            ErrorCode::PoolMismatch => "Supplied accounts do not match the pool."@,
            ErrorCode::AlreadyInitialized => "Pool is already initialized."@,
            ErrorCode::TransferFailure => "Transfer was refused."@,
            ErrorCode::ArithmeticOverflow => "Payout computation overflowed."@,
        }
    }

    /// Returns the text that describes the refusal.
    pub fn message(&self) -> (s: &'static str)
        ensures
            s@ == self.message_text(),
    {
        match self {
            ErrorCode::InvalidAmount => "Amount must be greater than zero.",
            ErrorCode::AccountMismatch => "Custody account does not match the asset or the derived authority.",
            ErrorCode::PoolMismatch => "Supplied accounts do not match the pool.",
            ErrorCode::AlreadyInitialized => "Pool is already initialized.",
            ErrorCode::TransferFailure => "Transfer was refused.",
            ErrorCode::ArithmeticOverflow => "Payout computation overflowed.",
        }
    }
}

} // verus!
