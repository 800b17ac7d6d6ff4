//! The failure kinds an instruction can surface: the program's own closed
//! error enumeration, the rejections of the modeled token ledger, and the
//! account-constraint failure detected before a handler runs.

use vstd::prelude::*;

verus! {

/// The program's own declared error kinds.
#[derive(Clone, Copy, Debug, PartialEq, Eq, Structural)]
pub enum TokenMinterError {
    /// Declared for a zero mint amount, but never raised: `create_token`
    /// accepts a zero amount.
    ZeroMintAmount,
    /// A burn of zero tokens.
    ZeroBurnAmount,
    /// The mint's recorded freeze authority differs from the supplied one.
    InvalidFreezeAuthority,
    /// The mint has no freeze authority at all.
    FreezeAuthorityNotSet,
}

impl TokenMinterError {
    /// The fixed message of each declared kind.
    pub open spec fn spec_message(self) -> Seq<char> {
        match self {
            TokenMinterError::ZeroMintAmount => "Mint amount must be greater than zero."@,
            TokenMinterError::ZeroBurnAmount => "Burn amount must be greater than zero."@,
            TokenMinterError::InvalidFreezeAuthority => "The provided freeze authority is invalid."@,
            TokenMinterError::FreezeAuthorityNotSet => "Freeze authority is not set on the Mint account."@,
        }
    }

    /// The fixed human-readable message surfaced with this error kind.
    pub fn message(&self) -> (r: &'static str)
        ensures
            r@ == self.spec_message(),
    {
        match self {
            TokenMinterError::ZeroMintAmount => "Mint amount must be greater than zero.",
            TokenMinterError::ZeroBurnAmount => "Burn amount must be greater than zero.",
            TokenMinterError::InvalidFreezeAuthority => "The provided freeze authority is invalid.",
            TokenMinterError::FreezeAuthorityNotSet => "Freeze authority is not set on the Mint account.",
        }
    }
}

/// The rejections of the token ledger the instructions forward their work to.
#[derive(Clone, Copy, Debug, PartialEq, Eq, Structural)]
pub enum TokenError {
    /// The acting address does not hold the needed authority.
    AuthorityMismatch,
    /// The holder account is frozen.
    AccountFrozen,
    /// A balance or the supply is too small for the requested amount.
    InsufficientFunds,
    /// A balance or the supply would pass the 64-bit limit.
    Overflow,
}

/// Everything an instruction can fail with: its own error kinds, a ledger
/// rejection, or an authority account that is not the derived address.
#[derive(Clone, Copy, Debug, PartialEq, Eq, Structural)]
pub enum ProgramError {
    Minter(TokenMinterError),
    Token(TokenError),
    /// The supplied authority account is not the address derived from the
    /// fixed seed; the runtime refuses the instruction before the handler
    /// logic runs.
    ConstraintSeeds,
}

} // verus!
