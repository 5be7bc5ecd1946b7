use vstd::prelude::*;

verus! {

/// The errors that the vault program itself raises.
#[derive(Clone, Copy, Debug, PartialEq, Eq, Structural)]
pub enum ErrorCode {
    /// Only the vault authority can withdraw funds.
    Unauthorized,
    /// Insufficient funds in the vault.
    InsufficientFunds,
}

/// Reads `anchor_lang::error::ERROR_CODE_OFFSET`, the number of a program's
/// first own error. Trusted: the constant is 6000 in its source.
#[verifier::external_body]
fn error_code_offset() -> (n: u32)
    ensures
        n == 6000,
{
    anchor_lang::error::ERROR_CODE_OFFSET
}

impl ErrorCode {
    /// The variant's name, as the program's logs report it.
    pub fn name(&self) -> (s: String)
        ensures
            s@ == match self {
                ErrorCode::Unauthorized => "Unauthorized"@,
                ErrorCode::InsufficientFunds => "InsufficientFunds"@,
            },
    {
        match self {
            ErrorCode::Unauthorized => "Unauthorized".to_owned(),
            ErrorCode::InsufficientFunds => "InsufficientFunds".to_owned(),
        }
    }

    /// The error's message.
    pub fn message(&self) -> (s: String)
        ensures
            s@ == match self {
                ErrorCode::Unauthorized => "Only the vault authority can withdraw funds"@,
                ErrorCode::InsufficientFunds => "Insufficient funds in the vault"@,
            },
    {
        match self {
            ErrorCode::Unauthorized => "Only the vault authority can withdraw funds".to_owned(),
            ErrorCode::InsufficientFunds => "Insufficient funds in the vault".to_owned(),
        }
    }

    /// The error's number: the framework's offset for a program's own
    /// errors plus the variant's position in the enum.
    pub fn number(&self) -> (n: u32)
        ensures
            n == match self {
                ErrorCode::Unauthorized => 6000u32,
                ErrorCode::InsufficientFunds => 6001u32,
            },
    {
        let offset: u32 = error_code_offset();
        match self {
            ErrorCode::Unauthorized => offset,
            ErrorCode::InsufficientFunds => offset + 1,
        }
    }
}

/// Why an instruction to the vault program fails: a check of the accounts
/// that the framework makes before the handler runs, an error of the system
/// program that moves the lamports, or an error of the program itself.
#[derive(Clone, Copy, Debug, PartialEq, Eq, Structural)]
pub enum VaultError {
    /// The `authority` account did not sign the transaction.
    AccountNotSigner,
    /// The state account holds nothing: it is system-owned with no lamports.
    AccountNotInitialized,
    /// The state account is not owned by the vault program.
    AccountOwnedByWrongProgram,
    /// The vault account is not owned by the system program.
    AccountNotSystemOwned,
    /// The account passed as the system program is not the system program.
    InvalidProgramId,
    /// An account's address is not the one derived from its seeds.
    ConstraintSeeds,
    /// The state account records another authority.
    ConstraintHasOne,
    /// The payer of a new state account is that account itself.
    TryingToInitPayerAsProgramAccount,
    /// The program panicked, and the runtime failed the transaction. The
    /// vault program panics in one place: in `find_program_address`, where
    /// no bump from 255 down to 1 yields an address for the seeds.
    ProgramFailedToComplete,
    /// The system program refuses to create an account that is already in use.
    AccountAlreadyInUse,
    /// The system program refuses to move more lamports than an account holds.
    ResultWithNegativeLamports,
    /// The system program refuses to move lamports out of an account that holds data.
    InvalidArgument,
    /// A balance would exceed `u64::MAX`.
    ArithmeticOverflow,
    /// The system program refuses to debit an account that did not sign.
    MissingRequiredSignature,
    /// The runtime refuses a transaction that leaves an account rent-paying
    /// against its rule on rent states.
    InsufficientFundsForRent,
    /// The runtime cannot verify the transaction's signature: the signer's
    /// address is not a point of the ed25519 curve, so no key signs for it.
    SignatureFailure,
    /// The vault program's own error.
    Program(ErrorCode),
}

} // verus!
