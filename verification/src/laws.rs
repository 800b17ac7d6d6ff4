//! The properties that hold across several instructions, each stated over
//! the same spec-level transitions the handlers' contracts use.

use vstd::prelude::*;

use crate::authority::mint_authority_address;
use crate::errors::{ProgramError, TokenError, TokenMinterError};
use crate::instructions::{
    spec_burn_tokens, spec_create_token, spec_freeze_account, spec_thaw_account,
};
use crate::ledger::{spec_transfer, HolderState, MintState};

verus! {

/// After a successful `freeze_account`, the holder account is frozen, and
/// every later burn or transfer from it — under any mint state, any
/// authority and any amount — is refused and changes nothing.
pub proof fn lemma_freeze_blocks_spending(
    m: MintState,
    h: HolderState,
    supplied: Seq<u8>,
    m2: MintState,
    a2: Seq<u8>,
    dst: HolderState,
    amount: u64,
)
    requires
        spec_freeze_account(m, h, supplied).1 is Ok,
    ensures
        spec_freeze_account(m, h, supplied).0.frozen,
        spec_burn_tokens(m2, spec_freeze_account(m, h, supplied).0, a2, amount).0 == m2,
        spec_burn_tokens(m2, spec_freeze_account(m, h, supplied).0, a2, amount).1
            == spec_freeze_account(m, h, supplied).0,
        spec_burn_tokens(m2, spec_freeze_account(m, h, supplied).0, a2, amount).2 is Err,
        spec_transfer(spec_freeze_account(m, h, supplied).0, dst, a2, amount).0
            == spec_freeze_account(m, h, supplied).0,
        spec_transfer(spec_freeze_account(m, h, supplied).0, dst, a2, amount).1 == dst,
        spec_transfer(spec_freeze_account(m, h, supplied).0, dst, a2, amount).2 == Err::<
            (),
            TokenError,
        >(TokenError::AccountFrozen),
{
}

/// After a successful `thaw_account`, the account spends again: its owner
/// may burn any positive amount within the balance and the supply, and the
/// balance and supply fall by exactly that amount.
pub proof fn lemma_thaw_restores_spending(
    m: MintState,
    h: HolderState,
    supplied: Seq<u8>,
    m2: MintState,
    amount: u64,
)
    requires
        spec_thaw_account(m, h, supplied).1 is Ok,
        0 < amount <= spec_thaw_account(m, h, supplied).0.balance,
        amount <= m2.supply,
    ensures
        !spec_thaw_account(m, h, supplied).0.frozen,
        spec_burn_tokens(m2, spec_thaw_account(m, h, supplied).0, h.owner, amount).2 is Ok,
        spec_burn_tokens(m2, spec_thaw_account(m, h, supplied).0, h.owner, amount).1.balance
            == h.balance - amount,
        spec_burn_tokens(m2, spec_thaw_account(m, h, supplied).0, h.owner, amount).0.supply
            == m2.supply - amount,
{
}

/// Re-deriving the authority address from the fixed seed always yields the
/// address a created mint records: whatever `create_token` with the derived
/// address returns, both stored authorities are exactly
/// `mint_authority_address()`.
pub proof fn lemma_created_authorities_match_derivation(
    dest: HolderState,
    decimals: u8,
    mint_amount: u64,
)
    ensures
        spec_create_token(mint_authority_address(), dest, decimals, mint_amount).0.mint_authority
            == Some(mint_authority_address()),
        spec_create_token(mint_authority_address(), dest, decimals, mint_amount).0.freeze_authority
            == Some(mint_authority_address()),
{
}

/// `freeze_account` and `thaw_account` run the very same authority checks:
/// on any state they accept and refuse alike, with the same error.
pub proof fn lemma_freeze_thaw_same_checks(m: MintState, h: HolderState, supplied: Seq<u8>)
    ensures
        spec_freeze_account(m, h, supplied).1 == spec_thaw_account(m, h, supplied).1,
{
}

/// A zero burn changes nothing and is the only input on which `burn_tokens`
/// raises `ZeroBurnAmount`.
pub proof fn lemma_zero_burn_rejected(m: MintState, h: HolderState, authority: Seq<u8>, amount: u64)
    ensures
        (spec_burn_tokens(m, h, authority, amount).2 == Err::<(), ProgramError>(
            ProgramError::Minter(TokenMinterError::ZeroBurnAmount),
        )) == (amount == 0),
        amount == 0 ==> spec_burn_tokens(m, h, authority, amount).0 == m && spec_burn_tokens(
            m,
            h,
            authority,
            amount,
        ).1 == h,
{
}

} // verus!
