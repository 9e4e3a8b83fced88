use vstd::prelude::*;

verus! {

/// The faults an instruction can end with. Each failed instruction reports
/// exactly one of them.
#[derive(Debug, Clone, Copy, PartialEq, Eq, Structural)]
pub enum VaultError {
    /// A balance or a custody account holds less than the amount asked for.
    InsufficientFunds,
    /// A required signature is missing, or the caller is not the vault owner.
    UnauthorizedAccess,
    /// Malformed instruction, zero amount, or wrong account flags or ownership.
    InvalidInput,
    /// The vault is closed.
    VaultClosed,
    /// A custody account fails a structural or cross-reference check.
    InvalidTokenAccount,
    /// A mint fails a structural or cross-reference check.
    InvalidMint,
    /// A checked addition or subtraction would wrap.
    ArithmeticOverflow,
    /// An expected ledger record is absent or has the wrong size.
    AccountNotInitialized,
}

impl VaultError {
    /// The position of the variant in the declaration, which is the number
    /// under which the host reports the fault.
    pub open spec fn spec_code(self) -> u32 {
        match self {
            VaultError::InsufficientFunds => 0,
            VaultError::UnauthorizedAccess => 1,
            VaultError::InvalidInput => 2,
            VaultError::VaultClosed => 3,
            VaultError::InvalidTokenAccount => 4,
            VaultError::InvalidMint => 5,
            VaultError::ArithmeticOverflow => 6,
            VaultError::AccountNotInitialized => 7,
        }
    }

    #[verifier::when_used_as_spec(spec_code)]
    pub fn code(self) -> (c: u32)
        ensures
            c == self.spec_code(),
    {
        match self {
            VaultError::InsufficientFunds => 0,
            VaultError::UnauthorizedAccess => 1,
            VaultError::InvalidInput => 2,
            VaultError::VaultClosed => 3,
            VaultError::InvalidTokenAccount => 4,
            VaultError::InvalidMint => 5,
            VaultError::ArithmeticOverflow => 6,
            VaultError::AccountNotInitialized => 7,
        }
    }

    /// The short name of the fault.
    pub open spec fn message_text(self) -> Seq<char> {
        match self {
            VaultError::InsufficientFunds => "Insufficient funds"@,
            VaultError::UnauthorizedAccess => "Unauthorized access"@,
            VaultError::InvalidInput => "Invalid input"@,
            VaultError::VaultClosed => "Vault is closed"@,
            VaultError::InvalidTokenAccount => "Invalid token account"@,
            VaultError::InvalidMint => "Invalid mint"@,
            VaultError::ArithmeticOverflow => "Arithmetic overflow"@,
            VaultError::AccountNotInitialized => "Account not initialized"@,
        }
    }

    /// The short name of the fault.
    pub fn message(&self) -> (s: String)
        ensures
            s@ == self.message_text(),
    {
        match self {
            VaultError::InsufficientFunds => "Insufficient funds".to_owned(),
            VaultError::UnauthorizedAccess => "Unauthorized access".to_owned(),
            VaultError::InvalidInput => "Invalid input".to_owned(),
            VaultError::VaultClosed => "Vault is closed".to_owned(),
            VaultError::InvalidTokenAccount => "Invalid token account".to_owned(),
            VaultError::InvalidMint => "Invalid mint".to_owned(),
            VaultError::ArithmeticOverflow => "Arithmetic overflow".to_owned(),
            VaultError::AccountNotInitialized => "Account not initialized".to_owned(),
        }
    }

    /// The line that the host logs for the fault.
    pub open spec fn log_text(self) -> Seq<char> {
        match self {
            VaultError::InsufficientFunds => "Error: Insufficient funds for withdrawal"@,
            VaultError::UnauthorizedAccess => "Error: Unauthorized access attempt"@,
            VaultError::InvalidInput => "Error: Invalid input parameters provided"@,
            VaultError::VaultClosed => "Error: Vault is closed, no operations allowed"@,
            VaultError::InvalidTokenAccount => "Error: Invalid token account provided"@,
            VaultError::InvalidMint => "Error: Invalid mint provided"@,
            VaultError::ArithmeticOverflow => "Error: Arithmetic overflow occurred"@,
            VaultError::AccountNotInitialized => "Error: Account not properly initialized"@,
        }
    }

    /// The line that the host logs for the fault.
    pub fn log_line(&self) -> (s: String)
        ensures
            s@ == self.log_text(),
    {
        match self {
            VaultError::InsufficientFunds => "Error: Insufficient funds for withdrawal".to_owned(),
            VaultError::UnauthorizedAccess => "Error: Unauthorized access attempt".to_owned(),
            VaultError::InvalidInput => "Error: Invalid input parameters provided".to_owned(),
            VaultError::VaultClosed => "Error: Vault is closed, no operations allowed".to_owned(),
            VaultError::InvalidTokenAccount => "Error: Invalid token account provided".to_owned(),
            VaultError::InvalidMint => "Error: Invalid mint provided".to_owned(),
            VaultError::ArithmeticOverflow => "Error: Arithmetic overflow occurred".to_owned(),
            VaultError::AccountNotInitialized => {
                "Error: Account not properly initialized".to_owned()
            },
        }
    }

    /// The name of the error type, as the host's decoder asks for it.
    pub fn type_of() -> (s: &'static str)
        ensures
            s@ == "VaultError"@,
    {
        "VaultError"
    }
}

} // verus!
