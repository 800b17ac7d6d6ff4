//! The four instruction handlers. Each takes the accounts the runtime hands
//! it, performs the program's own authority and guard checks, and forwards
//! the state change to the token ledger. The `process_*` entry points add
//! the runtime's account constraint: the supplied authority account must be
//! the address derived from the fixed seed.
//!
//! The contracts state each handler's own writes. On failure no write lands
//! on chain at all: the runtime discards the whole transaction, so a partial
//! state a failed `create_token` leaves in its context never becomes
//! visible.

use vstd::prelude::*;

use crate::authority::{
    address_eq, copy_address, derive_mint_authority, derived_authority, mint_authority_address,
    Address,
};
use crate::errors::{ProgramError, TokenError, TokenMinterError};
use crate::ledger::{
    burn, freeze, initialize_mint, mint_to, set_freeze_authority, spec_burn, spec_freeze,
    spec_initialize_mint, spec_mint_to, spec_set_freeze_authority, spec_thaw, thaw, HolderAccount,
    HolderState, MintRecord, MintState,
};

verus! {

/// The accounts `create_token` touches: the mint to be created, the derived
/// authority, the recipient holder account, and the fee-paying signer.
pub struct CreateToken {
    /// Written wholesale by the handler.
    pub mint: MintRecord,
    /// The account supplied as mint and freeze authority.
    pub mint_authority: Address,
    /// The recipient holder account, fresh or reused.
    pub destination: HolderAccount,
    /// The fee-paying signer, owner of the destination account.
    pub signer: Address,
}

/// The accounts `freeze_account` and `thaw_account` share: the mint, the
/// holder account whose frozen flag changes, and the account claimed as
/// freeze authority.
pub struct UpdateTokenAccountState {
    pub mint: MintRecord,
    pub token_account: HolderAccount,
    /// The account supplied as freeze authority.
    pub freeze_authority: Address,
}

/// The accounts `burn_tokens` touches: the mint, the holder account burned
/// from, and the signing owner of that account.
pub struct BurnTokens {
    pub mint: MintRecord,
    pub from: HolderAccount,
    /// The signer authorizing the burn: the holder account's own owner, not
    /// the derived address.
    pub authority: Address,
}

/// Whether a supplied authority account passes the runtime's seed
/// constraint: the derivation succeeds and yields that address.
pub open spec fn spec_seeds_check(supplied: Seq<u8>) -> bool {
    derived_authority() matches Some(p) && p.0 == supplied
}

/// What `create_token` does: build the mint with both authorities held by
/// the supplied address, reassert the freeze authority, and mint the
/// requested amount to the destination.
pub open spec fn spec_create_token(
    supplied: Seq<u8>,
    dest: HolderState,
    decimals: u8,
    mint_amount: u64,
) -> (MintState, HolderState, Result<(), ProgramError>) {
    let m0 = spec_initialize_mint(decimals, supplied);
    let s1 = spec_set_freeze_authority(m0, supplied, Some(supplied));
    match s1.1 {
        Err(e) => (s1.0, dest, Err(ProgramError::Token(e))),
        Ok(_) => {
            let s2 = spec_mint_to(s1.0, dest, supplied, mint_amount);
            match s2.2 {
                Err(e) => (s2.0, s2.1, Err(ProgramError::Token(e))),
                Ok(_) => (s2.0, s2.1, Ok(())),
            }
        },
    }
}

/// What `freeze_account` does: refuse a mint without a freeze authority,
/// refuse a recorded authority other than the supplied one, and otherwise
/// set the frozen flag.
pub open spec fn spec_freeze_account(m: MintState, h: HolderState, supplied: Seq<u8>) -> (
    HolderState,
    Result<(), ProgramError>,
) {
    match m.freeze_authority {
        None => (h, Err(ProgramError::Minter(TokenMinterError::FreezeAuthorityNotSet))),
        Some(a) => if a != supplied {
            (h, Err(ProgramError::Minter(TokenMinterError::InvalidFreezeAuthority)))
        } else {
            let s = spec_freeze(m, h, supplied);
            match s.1 {
                Err(e) => (s.0, Err(ProgramError::Token(e))),
                Ok(_) => (s.0, Ok(())),
            }
        },
    }
}

/// What `thaw_account` does: the same checks as `spec_freeze_account`, then
/// the frozen flag is cleared.
pub open spec fn spec_thaw_account(m: MintState, h: HolderState, supplied: Seq<u8>) -> (
    HolderState,
    Result<(), ProgramError>,
) {
    match m.freeze_authority {
        None => (h, Err(ProgramError::Minter(TokenMinterError::FreezeAuthorityNotSet))),
        Some(a) => if a != supplied {
            (h, Err(ProgramError::Minter(TokenMinterError::InvalidFreezeAuthority)))
        } else {
            let s = spec_thaw(m, h, supplied);
            match s.1 {
                Err(e) => (s.0, Err(ProgramError::Token(e))),
                Ok(_) => (s.0, Ok(())),
            }
        },
    }
}

/// What `burn_tokens` does: refuse a zero amount, then let the owner burn
/// from the holder account.
pub open spec fn spec_burn_tokens(
    m: MintState,
    h: HolderState,
    authority: Seq<u8>,
    amount: u64,
) -> (MintState, HolderState, Result<(), ProgramError>) {
    if amount == 0 {
        (m, h, Err(ProgramError::Minter(TokenMinterError::ZeroBurnAmount)))
    } else {
        let s = spec_burn(m, h, authority, amount);
        match s.2 {
            Err(e) => (s.0, s.1, Err(ProgramError::Token(e))),
            Ok(_) => (s.0, s.1, Ok(())),
        }
    }
}

/// Creates the token: a mint whose mint and freeze authority are both the
/// supplied authority account, with the requested amount minted to the
/// destination. A zero amount is accepted: `ZeroMintAmount` is declared but
/// no guard raises it.
pub fn create_token(ctx: &mut CreateToken, decimals: u8, mint_amount: u64) -> (r: Result<
    (),
    ProgramError,
>)
    ensures
        final(ctx).mint@ == spec_create_token(
            old(ctx).mint_authority@,
            old(ctx).destination@,
            decimals,
            mint_amount,
        ).0,
        final(ctx).destination@ == spec_create_token(
            old(ctx).mint_authority@,
            old(ctx).destination@,
            decimals,
            mint_amount,
        ).1,
        r == spec_create_token(
            old(ctx).mint_authority@,
            old(ctx).destination@,
            decimals,
            mint_amount,
        ).2,
        final(ctx).mint_authority@ == old(ctx).mint_authority@,
        final(ctx).signer@ == old(ctx).signer@,
        !old(ctx).destination.frozen && old(ctx).destination.balance + mint_amount <= u64::MAX
            ==> r is Ok,
        r is Ok ==> {
            &&& final(ctx).mint@.mint_authority == Some(old(ctx).mint_authority@)
            &&& final(ctx).mint@.freeze_authority == Some(old(ctx).mint_authority@)
            &&& final(ctx).mint@.decimals == decimals
            &&& final(ctx).mint@.supply == mint_amount
            &&& final(ctx).destination@.balance == old(ctx).destination@.balance + mint_amount
            &&& final(ctx).destination@.owner == old(ctx).destination@.owner
            &&& final(ctx).destination@.frozen == old(ctx).destination@.frozen
        },
{
    let authority = copy_address(&ctx.mint_authority);
    ctx.mint = initialize_mint(decimals, &authority);
    let set = set_freeze_authority(&mut ctx.mint, &authority, Some(&authority));
    match set {
        Err(e) => {
            return Err(ProgramError::Token(e));
        },
        Ok(_) => {},
    }
    let minted = mint_to(&mut ctx.mint, &mut ctx.destination, &authority, mint_amount);
    match minted {
        Err(e) => Err(ProgramError::Token(e)),
        Ok(_) => Ok(()),
    }
}

/// Freezes the holder account when the mint's recorded freeze authority is
/// the supplied one; fails with `FreezeAuthorityNotSet` when the mint has
/// none and `InvalidFreezeAuthority` when it differs.
pub fn freeze_account(ctx: &mut UpdateTokenAccountState) -> (r: Result<(), ProgramError>)
    ensures
        final(ctx).token_account@ == spec_freeze_account(
            old(ctx).mint@,
            old(ctx).token_account@,
            old(ctx).freeze_authority@,
        ).0,
        r == spec_freeze_account(
            old(ctx).mint@,
            old(ctx).token_account@,
            old(ctx).freeze_authority@,
        ).1,
        final(ctx).mint@ == old(ctx).mint@,
        final(ctx).freeze_authority@ == old(ctx).freeze_authority@,
        old(ctx).mint@.freeze_authority is None ==> r == Err::<(), ProgramError>(
            ProgramError::Minter(TokenMinterError::FreezeAuthorityNotSet),
        ) && final(ctx).token_account@ == old(ctx).token_account@,
        (old(ctx).mint@.freeze_authority matches Some(a) && a != old(ctx).freeze_authority@)
            ==> r == Err::<(), ProgramError>(ProgramError::Minter(TokenMinterError::InvalidFreezeAuthority)) && final(ctx).token_account@ == old(ctx).token_account@,
        old(ctx).mint@.freeze_authority == Some(old(ctx).freeze_authority@) ==> r is Ok && final(ctx).token_account@ == (HolderState {
            frozen: true,
            ..old(ctx).token_account@
        }),
        r is Err ==> final(ctx).token_account@ == old(ctx).token_account@,
{
    let configured = match &ctx.mint.freeze_authority {
        None => {
            return Err(ProgramError::Minter(TokenMinterError::FreezeAuthorityNotSet));
        },
        Some(a) => address_eq(a, &ctx.freeze_authority),
    };
    if !configured {
        return Err(ProgramError::Minter(TokenMinterError::InvalidFreezeAuthority));
    }
    let authority = copy_address(&ctx.freeze_authority);
    let froze = freeze(&ctx.mint, &mut ctx.token_account, &authority);
    match froze {
        Err(e) => Err(ProgramError::Token(e)),
        Ok(_) => Ok(()),
    }
}

/// Thaws the holder account under the same authority checks as
/// `freeze_account`.
pub fn thaw_account(ctx: &mut UpdateTokenAccountState) -> (r: Result<(), ProgramError>)
    ensures
        final(ctx).token_account@ == spec_thaw_account(
            old(ctx).mint@,
            old(ctx).token_account@,
            old(ctx).freeze_authority@,
        ).0,
        r == spec_thaw_account(
            old(ctx).mint@,
            old(ctx).token_account@,
            old(ctx).freeze_authority@,
        ).1,
        final(ctx).mint@ == old(ctx).mint@,
        final(ctx).freeze_authority@ == old(ctx).freeze_authority@,
        old(ctx).mint@.freeze_authority is None ==> r == Err::<(), ProgramError>(
            ProgramError::Minter(TokenMinterError::FreezeAuthorityNotSet),
        ) && final(ctx).token_account@ == old(ctx).token_account@,
        (old(ctx).mint@.freeze_authority matches Some(a) && a != old(ctx).freeze_authority@)
            ==> r == Err::<(), ProgramError>(ProgramError::Minter(TokenMinterError::InvalidFreezeAuthority)) && final(ctx).token_account@ == old(ctx).token_account@,
        old(ctx).mint@.freeze_authority == Some(old(ctx).freeze_authority@) ==> r is Ok && final(ctx).token_account@ == (HolderState {
            frozen: false,
            ..old(ctx).token_account@
        }),
        r is Err ==> final(ctx).token_account@ == old(ctx).token_account@,
{
    let configured = match &ctx.mint.freeze_authority {
        None => {
            return Err(ProgramError::Minter(TokenMinterError::FreezeAuthorityNotSet));
        },
        Some(a) => address_eq(a, &ctx.freeze_authority),
    };
    if !configured {
        return Err(ProgramError::Minter(TokenMinterError::InvalidFreezeAuthority));
    }
    let authority = copy_address(&ctx.freeze_authority);
    let thawed = thaw(&ctx.mint, &mut ctx.token_account, &authority);
    match thawed {
        Err(e) => Err(ProgramError::Token(e)),
        Ok(_) => Ok(()),
    }
}

/// Burns `amount` tokens from the holder account under its own owner's
/// signature; a zero amount fails with `ZeroBurnAmount` and changes nothing.
pub fn burn_tokens(ctx: &mut BurnTokens, amount: u64) -> (r: Result<(), ProgramError>)
    ensures
        final(ctx).mint@ == spec_burn_tokens(
            old(ctx).mint@,
            old(ctx).from@,
            old(ctx).authority@,
            amount,
        ).0,
        final(ctx).from@ == spec_burn_tokens(
            old(ctx).mint@,
            old(ctx).from@,
            old(ctx).authority@,
            amount,
        ).1,
        r == spec_burn_tokens(old(ctx).mint@, old(ctx).from@, old(ctx).authority@, amount).2,
        final(ctx).authority@ == old(ctx).authority@,
        amount == 0 ==> r == Err::<(), ProgramError>(ProgramError::Minter(TokenMinterError::ZeroBurnAmount)) && final(ctx).mint@ == old(ctx).mint@ && final(ctx).from@ == old(ctx).from@,
        amount > 0 && old(ctx).from.frozen ==> r == Err::<(), ProgramError>(ProgramError::Token(TokenError::AccountFrozen))
            && final(ctx).mint@ == old(ctx).mint@ && final(ctx).from@ == old(ctx).from@,
        (amount > 0 && !old(ctx).from.frozen && old(ctx).from@.owner == old(ctx).authority@
            && amount <= old(ctx).from.balance && amount <= old(ctx).mint.supply) ==> r is Ok
            && final(ctx).from@.balance == old(ctx).from@.balance - amount && final(ctx).mint@.supply == old(ctx).mint@.supply - amount,
        r is Err ==> final(ctx).mint@ == old(ctx).mint@ && final(ctx).from@ == old(ctx).from@,
{
    if amount == 0 {
        return Err(ProgramError::Minter(TokenMinterError::ZeroBurnAmount));
    }
    let burned = burn(&mut ctx.mint, &mut ctx.from, &ctx.authority, amount);
    match burned {
        Err(e) => Err(ProgramError::Token(e)),
        Ok(_) => Ok(()),
    }
}

/// Runs the seed constraint, then `create_token`: the supplied authority
/// account must be the address derived from the fixed seed, so on success
/// the new mint's authorities are exactly that derived address.
pub fn process_create_token(ctx: &mut CreateToken, decimals: u8, mint_amount: u64) -> (r: Result<
    (),
    ProgramError,
>)
    ensures
        !spec_seeds_check(old(ctx).mint_authority@) ==> r == Err::<(), ProgramError>(ProgramError::ConstraintSeeds)
            && final(ctx).mint@ == old(ctx).mint@ && final(ctx).destination@ == old(ctx).destination@,
        spec_seeds_check(old(ctx).mint_authority@) ==> {
            &&& final(ctx).mint@ == spec_create_token(
                old(ctx).mint_authority@,
                old(ctx).destination@,
                decimals,
                mint_amount,
            ).0
            &&& final(ctx).destination@ == spec_create_token(
                old(ctx).mint_authority@,
                old(ctx).destination@,
                decimals,
                mint_amount,
            ).1
            &&& r == spec_create_token(
                old(ctx).mint_authority@,
                old(ctx).destination@,
                decimals,
                mint_amount,
            ).2
        },
        r is Ok ==> final(ctx).mint@.mint_authority == Some(mint_authority_address()) && final(ctx).mint@.freeze_authority == Some(mint_authority_address()),
        final(ctx).mint_authority@ == old(ctx).mint_authority@,
        final(ctx).signer@ == old(ctx).signer@,
{
    let derived = derive_mint_authority();
    match derived {
        None => Err(ProgramError::ConstraintSeeds),
        Some((addr, _bump)) => {
            if !address_eq(&addr, &ctx.mint_authority) {
                Err(ProgramError::ConstraintSeeds)
            } else {
                create_token(ctx, decimals, mint_amount)
            }
        },
    }
}

/// Runs the seed constraint, then `freeze_account`.
pub fn process_freeze_account(ctx: &mut UpdateTokenAccountState) -> (r: Result<(), ProgramError>)
    ensures
        !spec_seeds_check(old(ctx).freeze_authority@) ==> r == Err::<(), ProgramError>(ProgramError::ConstraintSeeds)
            && final(ctx).token_account@ == old(ctx).token_account@,
        spec_seeds_check(old(ctx).freeze_authority@) ==> final(ctx).token_account@
            == spec_freeze_account(
            old(ctx).mint@,
            old(ctx).token_account@,
            old(ctx).freeze_authority@,
        ).0 && r == spec_freeze_account(
            old(ctx).mint@,
            old(ctx).token_account@,
            old(ctx).freeze_authority@,
        ).1,
        r is Ok ==> final(ctx).token_account@.frozen,
        final(ctx).mint@ == old(ctx).mint@,
        final(ctx).freeze_authority@ == old(ctx).freeze_authority@,
{
    let derived = derive_mint_authority();
    match derived {
        None => Err(ProgramError::ConstraintSeeds),
        Some((addr, _bump)) => {
            if !address_eq(&addr, &ctx.freeze_authority) {
                Err(ProgramError::ConstraintSeeds)
            } else {
                freeze_account(ctx)
            }
        },
    }
}

/// Runs the seed constraint, then `thaw_account`.
pub fn process_thaw_account(ctx: &mut UpdateTokenAccountState) -> (r: Result<(), ProgramError>)
    ensures
        !spec_seeds_check(old(ctx).freeze_authority@) ==> r == Err::<(), ProgramError>(ProgramError::ConstraintSeeds)
            && final(ctx).token_account@ == old(ctx).token_account@,
        spec_seeds_check(old(ctx).freeze_authority@) ==> final(ctx).token_account@
            == spec_thaw_account(
            old(ctx).mint@,
            old(ctx).token_account@,
            old(ctx).freeze_authority@,
        ).0 && r == spec_thaw_account(
            old(ctx).mint@,
            old(ctx).token_account@,
            old(ctx).freeze_authority@,
        ).1,
        r is Ok ==> !final(ctx).token_account@.frozen,
        final(ctx).mint@ == old(ctx).mint@,
        final(ctx).freeze_authority@ == old(ctx).freeze_authority@,
{
    let derived = derive_mint_authority();
    match derived {
        None => Err(ProgramError::ConstraintSeeds),
        Some((addr, _bump)) => {
            if !address_eq(&addr, &ctx.freeze_authority) {
                Err(ProgramError::ConstraintSeeds)
            } else {
                thaw_account(ctx)
            }
        },
    }
}

} // verus!
