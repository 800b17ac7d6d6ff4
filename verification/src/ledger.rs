//! A model of the token ledger the instructions act on: the mint record and
//! the holder accounts live in an external token program, and every state
//! change the handlers request is one of the operations below; the transfer
//! between holders is the ledger's own, modeled because a frozen account
//! must refuse it. Each
//! operation's contract ties it to a spec-level transition, so the handlers'
//! guarantees compose from them. Account association (a holder account
//! belongs to the mint it is presented with) is the runtime's account model
//! and is taken as given by pairing the records structurally.

use vstd::prelude::*;

use crate::authority::{copy_address, address_eq, Address};
use crate::errors::TokenError;

verus! {

/// A mint record: one fungible token type.
pub struct MintRecord {
    /// Total number of tokens in existence.
    pub supply: u64,
    /// Decimal precision, fixed at creation.
    pub decimals: u8,
    /// Who may mint new tokens, if anyone.
    pub mint_authority: Option<Address>,
    /// Who may freeze and thaw holder accounts, if anyone.
    pub freeze_authority: Option<Address>,
}

/// One address's balance of one token type.
pub struct HolderAccount {
    /// The address whose signature spends from this account.
    pub owner: Address,
    /// Current balance.
    pub balance: u64,
    /// While set, the account may not transact.
    pub frozen: bool,
}

/// The mathematical shape of a mint record.
pub ghost struct MintState {
    pub supply: u64,
    pub decimals: u8,
    pub mint_authority: Option<Seq<u8>>,
    pub freeze_authority: Option<Seq<u8>>,
}

/// The mathematical shape of a holder account.
pub ghost struct HolderState {
    pub owner: Seq<u8>,
    pub balance: u64,
    pub frozen: bool,
}

impl View for MintRecord {
    type V = MintState;

    open spec fn view(&self) -> MintState {
        MintState {
            supply: self.supply,
            decimals: self.decimals,
            mint_authority: match self.mint_authority {
                Some(a) => Some(a@),
                None => None,
            },
            freeze_authority: match self.freeze_authority {
                Some(a) => Some(a@),
                None => None,
            },
        }
    }
}

impl View for HolderAccount {
    type V = HolderState;

    open spec fn view(&self) -> HolderState {
        HolderState { owner: self.owner@, balance: self.balance, frozen: self.frozen }
    }
}

/// A fresh mint: no tokens yet, and both authorities held by one address.
pub open spec fn spec_initialize_mint(decimals: u8, authority: Seq<u8>) -> MintState {
    MintState {
        supply: 0,
        decimals: decimals,
        mint_authority: Some(authority),
        freeze_authority: Some(authority),
    }
}

/// Reassigning the freeze authority: only its current holder may, and a mint
/// without one keeps refusing.
pub open spec fn spec_set_freeze_authority(
    m: MintState,
    current: Seq<u8>,
    new: Option<Seq<u8>>,
) -> (MintState, Result<(), TokenError>) {
    match m.freeze_authority {
        None => (m, Err(TokenError::AuthorityMismatch)),
        Some(a) => if a != current {
            (m, Err(TokenError::AuthorityMismatch))
        } else {
            (
                MintState {
                    supply: m.supply,
                    decimals: m.decimals,
                    mint_authority: m.mint_authority,
                    freeze_authority: new,
                },
                Ok(()),
            )
        },
    }
}

/// Minting: the mint authority adds to a holder's balance and to the supply,
/// refused on a frozen destination or past the 64-bit limit.
pub open spec fn spec_mint_to(
    m: MintState,
    dest: HolderState,
    authority: Seq<u8>,
    amount: u64,
) -> (MintState, HolderState, Result<(), TokenError>) {
    if dest.frozen {
        (m, dest, Err(TokenError::AccountFrozen))
    } else if m.mint_authority != Some(authority) {
        (m, dest, Err(TokenError::AuthorityMismatch))
    } else if m.supply + amount > u64::MAX || dest.balance + amount > u64::MAX {
        (m, dest, Err(TokenError::Overflow))
    } else {
        (
            MintState {
                supply: (m.supply + amount) as u64,
                decimals: m.decimals,
                mint_authority: m.mint_authority,
                freeze_authority: m.freeze_authority,
            },
            HolderState {
                owner: dest.owner,
                balance: (dest.balance + amount) as u64,
                frozen: dest.frozen,
            },
            Ok(()),
        )
    }
}

/// Freezing: only the mint's freeze authority, and the flag is set on
/// success.
pub open spec fn spec_freeze(m: MintState, h: HolderState, authority: Seq<u8>) -> (
    HolderState,
    Result<(), TokenError>,
) {
    if m.freeze_authority != Some(authority) {
        (h, Err(TokenError::AuthorityMismatch))
    } else {
        (HolderState { owner: h.owner, balance: h.balance, frozen: true }, Ok(()))
    }
}

/// Thawing: only the mint's freeze authority, and the flag is cleared on
/// success.
pub open spec fn spec_thaw(m: MintState, h: HolderState, authority: Seq<u8>) -> (
    HolderState,
    Result<(), TokenError>,
) {
    if m.freeze_authority != Some(authority) {
        (h, Err(TokenError::AuthorityMismatch))
    } else {
        (HolderState { owner: h.owner, balance: h.balance, frozen: false }, Ok(()))
    }
}

/// Burning: the account's own owner destroys part of its balance, and the
/// supply falls with it; refused on a frozen account or short funds.
pub open spec fn spec_burn(m: MintState, h: HolderState, authority: Seq<u8>, amount: u64) -> (
    MintState,
    HolderState,
    Result<(), TokenError>,
) {
    if h.frozen {
        (m, h, Err(TokenError::AccountFrozen))
    } else if h.owner != authority {
        (m, h, Err(TokenError::AuthorityMismatch))
    } else if h.balance < amount || m.supply < amount {
        (m, h, Err(TokenError::InsufficientFunds))
    } else {
        (
            MintState {
                supply: (m.supply - amount) as u64,
                decimals: m.decimals,
                mint_authority: m.mint_authority,
                freeze_authority: m.freeze_authority,
            },
            HolderState {
                owner: h.owner,
                balance: (h.balance - amount) as u64,
                frozen: h.frozen,
            },
            Ok(()),
        )
    }
}

/// Transferring: the source owner moves tokens to another holder of the same
/// token, refused while either side is frozen.
pub open spec fn spec_transfer(
    src: HolderState,
    dst: HolderState,
    authority: Seq<u8>,
    amount: u64,
) -> (HolderState, HolderState, Result<(), TokenError>) {
    if src.frozen || dst.frozen {
        (src, dst, Err(TokenError::AccountFrozen))
    } else if src.owner != authority {
        (src, dst, Err(TokenError::AuthorityMismatch))
    } else if src.balance < amount {
        (src, dst, Err(TokenError::InsufficientFunds))
    } else if dst.balance + amount > u64::MAX {
        (src, dst, Err(TokenError::Overflow))
    } else {
        (
            HolderState {
                owner: src.owner,
                balance: (src.balance - amount) as u64,
                frozen: src.frozen,
            },
            HolderState {
                owner: dst.owner,
                balance: (dst.balance + amount) as u64,
                frozen: dst.frozen,
            },
            Ok(()),
        )
    }
}

/// Creates a fresh mint held entirely by one authority address.
pub fn initialize_mint(decimals: u8, authority: &Address) -> (m: MintRecord)
    ensures
        m@ == spec_initialize_mint(decimals, authority@),
{
    MintRecord {
        supply: 0,
        decimals,
        mint_authority: Some(copy_address(authority)),
        freeze_authority: Some(copy_address(authority)),
    }
}

/// Reassigns the freeze authority when `current` holds it.
pub fn set_freeze_authority(m: &mut MintRecord, current: &Address, new: Option<&Address>) -> (r:
    Result<(), TokenError>)
    ensures
        final(m)@ == spec_set_freeze_authority(
            old(m)@,
            current@,
            match new {
                Some(a) => Some(a@),
                None => None,
            },
        ).0,
        r == spec_set_freeze_authority(
            old(m)@,
            current@,
            match new {
                Some(a) => Some(a@),
                None => None,
            },
        ).1,
{
    let held = match &m.freeze_authority {
        Some(a) => address_eq(a, current),
        None => false,
    };
    if !held {
        return Err(TokenError::AuthorityMismatch);
    }
    m.freeze_authority = match new {
        Some(a) => Some(copy_address(a)),
        None => None,
    };
    Ok(())
}

/// Mints `amount` tokens into `dest` under the mint authority.
pub fn mint_to(m: &mut MintRecord, dest: &mut HolderAccount, authority: &Address, amount: u64) -> (
    r: Result<(), TokenError>)
    ensures
        final(m)@ == spec_mint_to(old(m)@, old(dest)@, authority@, amount).0,
        final(dest)@ == spec_mint_to(old(m)@, old(dest)@, authority@, amount).1,
        r == spec_mint_to(old(m)@, old(dest)@, authority@, amount).2,
{
    if dest.frozen {
        return Err(TokenError::AccountFrozen);
    }
    let held = match &m.mint_authority {
        Some(a) => address_eq(a, authority),
        None => false,
    };
    if !held {
        return Err(TokenError::AuthorityMismatch);
    }
    if amount > u64::MAX - m.supply || amount > u64::MAX - dest.balance {
        return Err(TokenError::Overflow);
    }
    m.supply = m.supply + amount;
    dest.balance = dest.balance + amount;
    Ok(())
}

/// Sets the frozen flag of `h` under the mint's freeze authority.
pub fn freeze(m: &MintRecord, h: &mut HolderAccount, authority: &Address) -> (r: Result<
    (),
    TokenError,
>)
    ensures
        final(h)@ == spec_freeze(m@, old(h)@, authority@).0,
        r == spec_freeze(m@, old(h)@, authority@).1,
{
    let held = match &m.freeze_authority {
        Some(a) => address_eq(a, authority),
        None => false,
    };
    if !held {
        return Err(TokenError::AuthorityMismatch);
    }
    h.frozen = true;
    Ok(())
}

/// Clears the frozen flag of `h` under the mint's freeze authority.
pub fn thaw(m: &MintRecord, h: &mut HolderAccount, authority: &Address) -> (r: Result<
    (),
    TokenError,
>)
    ensures
        final(h)@ == spec_thaw(m@, old(h)@, authority@).0,
        r == spec_thaw(m@, old(h)@, authority@).1,
{
    let held = match &m.freeze_authority {
        Some(a) => address_eq(a, authority),
        None => false,
    };
    if !held {
        return Err(TokenError::AuthorityMismatch);
    }
    h.frozen = false;
    Ok(())
}

/// Burns `amount` tokens from `h` under the holder's own owner.
pub fn burn(m: &mut MintRecord, h: &mut HolderAccount, authority: &Address, amount: u64) -> (r:
    Result<(), TokenError>)
    ensures
        final(m)@ == spec_burn(old(m)@, old(h)@, authority@, amount).0,
        final(h)@ == spec_burn(old(m)@, old(h)@, authority@, amount).1,
        r == spec_burn(old(m)@, old(h)@, authority@, amount).2,
{
    if h.frozen {
        return Err(TokenError::AccountFrozen);
    }
    if !address_eq(&h.owner, authority) {
        return Err(TokenError::AuthorityMismatch);
    }
    if h.balance < amount || m.supply < amount {
        return Err(TokenError::InsufficientFunds);
    }
    h.balance = h.balance - amount;
    m.supply = m.supply - amount;
    Ok(())
}

/// Moves `amount` tokens from `src` to `dst` under the source owner.
pub fn transfer(
    src: &mut HolderAccount,
    dst: &mut HolderAccount,
    authority: &Address,
    amount: u64,
) -> (r: Result<(), TokenError>)
    ensures
        final(src)@ == spec_transfer(old(src)@, old(dst)@, authority@, amount).0,
        final(dst)@ == spec_transfer(old(src)@, old(dst)@, authority@, amount).1,
        r == spec_transfer(old(src)@, old(dst)@, authority@, amount).2,
{
    if src.frozen || dst.frozen {
        return Err(TokenError::AccountFrozen);
    }
    if !address_eq(&src.owner, authority) {
        return Err(TokenError::AuthorityMismatch);
    }
    if src.balance < amount {
        return Err(TokenError::InsufficientFunds);
    }
    if amount > u64::MAX - dst.balance {
        return Err(TokenError::Overflow);
    }
    src.balance = src.balance - amount;
    dst.balance = dst.balance + amount;
    Ok(())
}

} // verus!
