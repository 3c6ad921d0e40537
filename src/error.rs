use vstd::prelude::*;

verus! {

/// Business-rule failures specific to the escrow program.
#[derive(Debug, Clone, Copy, PartialEq, Eq, Structural)]
pub enum EscrowError {
    InvalidAmount,
    InvalidMint,
    InvalidUser,
}

impl EscrowError {
    pub open spec fn spec_code(self) -> u32 {
        match self {
            EscrowError::InvalidAmount => 0,
            EscrowError::InvalidMint => 1,
            EscrowError::InvalidUser => 2,
        }
    }

    /// The custom error code reported to the ledger.
    pub fn code(&self) -> (r: u32)
        ensures
            r == self.spec_code(),
    {
        match self {
            EscrowError::InvalidAmount => 0,
            EscrowError::InvalidMint => 1,
            EscrowError::InvalidUser => 2,
        }
    }
}

/// Why an instruction was refused; each variant maps to the ledger's program error of
/// the same name, and `Escrow` to a custom error code.
#[derive(Debug, Clone, Copy, PartialEq, Eq, Structural)]
pub enum ProcessError {
    InvalidInstructionData,
    InvalidArgument,
    NotEnoughAccountKeys,
    MissingRequiredSignature,
    IncorrectProgramId,
    InvalidAccountOwner,
    IllegalOwner,
    InvalidAccountData,
    UninitializedAccount,
    InsufficientFunds,
    InvalidSeeds,
    AccountAlreadyInitialized,
    Escrow(EscrowError),
}

} // verus!
