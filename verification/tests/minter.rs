use minter::authority::{address_eq, copy_address, derive_mint_authority, program_id, Address};
use minter::errors::{ProgramError, TokenError, TokenMinterError};
use minter::instructions::{
    burn_tokens, freeze_account, process_create_token, process_freeze_account,
    process_thaw_account, thaw_account, BurnTokens, CreateToken, UpdateTokenAccountState,
};
use minter::ledger::{set_freeze_authority, transfer, HolderAccount, MintRecord};

fn addr(tag: u8) -> Address {
    let mut bytes = vec![0u8; 32];
    bytes[0] = tag;
    Address { bytes }
}

fn derived() -> (Address, u8) {
    derive_mint_authority().expect("the fixed seed must yield a derived address")
}

fn fresh_holder(owner: &Address) -> HolderAccount {
    HolderAccount { owner: copy_address(owner), balance: 0, frozen: false }
}

fn created_context(mint_amount: u64) -> CreateToken {
    let (authority, _bump) = derived();
    let signer = addr(7);
    let destination = fresh_holder(&signer);
    let mut ctx = CreateToken {
        mint: MintRecord { supply: 0, decimals: 0, mint_authority: None, freeze_authority: None },
        mint_authority: authority,
        destination,
        signer,
    };
    let r = process_create_token(&mut ctx, 9, mint_amount);
    assert_eq!(r, Ok(()));
    ctx
}

#[test]
fn create_token_sets_both_authorities_and_balance() {
    let ctx = created_context(1_000_000);
    let (authority, _bump) = derived();
    match &ctx.mint.mint_authority {
        Some(a) => assert!(address_eq(a, &authority)),
        None => panic!("mint authority missing"),
    }
    match &ctx.mint.freeze_authority {
        Some(a) => assert!(address_eq(a, &authority)),
        None => panic!("freeze authority missing"),
    }
    assert_eq!(ctx.mint.supply, 1_000_000);
    assert_eq!(ctx.mint.decimals, 9);
    assert_eq!(ctx.destination.balance, 1_000_000);
    assert!(!ctx.destination.frozen);
}

#[test]
fn create_token_zero_amount_succeeds() {
    // The declared ZeroMintAmount kind is never raised: a zero mint amount
    // goes through, and the mint simply starts with an empty supply.
    let ctx = created_context(0);
    assert_eq!(ctx.mint.supply, 0);
    assert_eq!(ctx.destination.balance, 0);
}

#[test]
fn create_token_wrong_authority_account_fails_seed_constraint() {
    let signer = addr(7);
    let destination = fresh_holder(&signer);
    let mut ctx = CreateToken {
        mint: MintRecord { supply: 0, decimals: 0, mint_authority: None, freeze_authority: None },
        mint_authority: addr(8),
        destination,
        signer,
    };
    let r = process_create_token(&mut ctx, 9, 5);
    assert_eq!(r, Err(ProgramError::ConstraintSeeds));
    assert_eq!(ctx.destination.balance, 0);
}

#[test]
fn create_token_overflowing_destination_fails() {
    let (authority, _bump) = derived();
    let signer = addr(7);
    let mut destination = fresh_holder(&signer);
    destination.balance = u64::MAX;
    let mut ctx = CreateToken {
        mint: MintRecord { supply: 0, decimals: 0, mint_authority: None, freeze_authority: None },
        mint_authority: authority,
        destination,
        signer,
    };
    let r = process_create_token(&mut ctx, 9, 1);
    assert_eq!(r, Err(ProgramError::Token(TokenError::Overflow)));
}

#[test]
fn freeze_fails_when_no_freeze_authority_is_set() {
    let (authority, _bump) = derived();
    let owner = addr(7);
    let mut ctx = UpdateTokenAccountState {
        mint: MintRecord { supply: 5, decimals: 0, mint_authority: None, freeze_authority: None },
        token_account: fresh_holder(&owner),
        freeze_authority: authority,
    };
    let r = freeze_account(&mut ctx);
    assert_eq!(r, Err(ProgramError::Minter(TokenMinterError::FreezeAuthorityNotSet)));
    assert!(!ctx.token_account.frozen);
    let r = thaw_account(&mut ctx);
    assert_eq!(r, Err(ProgramError::Minter(TokenMinterError::FreezeAuthorityNotSet)));
}

#[test]
fn freeze_and_thaw_fail_on_reassigned_freeze_authority() {
    // The mint once belonged to the program, but its freeze authority was
    // reassigned away by its then-holder.
    let created = created_context(50);
    let mut mint = created.mint;
    let (authority, _bump) = derived();
    let elsewhere = addr(9);
    let r = set_freeze_authority(&mut mint, &authority, Some(&elsewhere));
    assert_eq!(r, Ok(()));
    let owner = addr(7);
    let mut ctx = UpdateTokenAccountState {
        mint,
        token_account: fresh_holder(&owner),
        freeze_authority: authority,
    };
    let r = process_freeze_account(&mut ctx);
    assert_eq!(r, Err(ProgramError::Minter(TokenMinterError::InvalidFreezeAuthority)));
    assert!(!ctx.token_account.frozen);
    let r = process_thaw_account(&mut ctx);
    assert_eq!(r, Err(ProgramError::Minter(TokenMinterError::InvalidFreezeAuthority)));
}

#[test]
fn frozen_account_rejects_burn_and_transfer_until_thawed() {
    let created = created_context(100);
    let (authority, _bump) = derived();
    let mut ctx = UpdateTokenAccountState {
        mint: created.mint,
        token_account: created.destination,
        freeze_authority: authority,
    };
    assert_eq!(process_freeze_account(&mut ctx), Ok(()));
    assert!(ctx.token_account.frozen);

    let owner = addr(7);
    let mut burn_ctx = BurnTokens {
        mint: ctx.mint,
        from: ctx.token_account,
        authority: copy_address(&owner),
    };
    assert_eq!(
        burn_tokens(&mut burn_ctx, 10),
        Err(ProgramError::Token(TokenError::AccountFrozen))
    );
    assert_eq!(burn_ctx.from.balance, 100);
    assert_eq!(burn_ctx.mint.supply, 100);

    let mut other = fresh_holder(&addr(11));
    assert_eq!(
        transfer(&mut burn_ctx.from, &mut other, &owner, 10),
        Err(TokenError::AccountFrozen)
    );
    assert_eq!(burn_ctx.from.balance, 100);
    assert_eq!(other.balance, 0);

    let (authority, _bump) = derived();
    let mut ctx = UpdateTokenAccountState {
        mint: burn_ctx.mint,
        token_account: burn_ctx.from,
        freeze_authority: authority,
    };
    assert_eq!(process_thaw_account(&mut ctx), Ok(()));
    assert!(!ctx.token_account.frozen);

    let mut burn_ctx = BurnTokens {
        mint: ctx.mint,
        from: ctx.token_account,
        authority: owner,
    };
    assert_eq!(burn_tokens(&mut burn_ctx, 10), Ok(()));
    assert_eq!(burn_ctx.from.balance, 90);
    assert_eq!(burn_ctx.mint.supply, 90);
}

#[test]
fn burn_zero_fails_and_changes_nothing() {
    let created = created_context(40);
    let owner = addr(7);
    let mut ctx = BurnTokens { mint: created.mint, from: created.destination, authority: owner };
    assert_eq!(
        burn_tokens(&mut ctx, 0),
        Err(ProgramError::Minter(TokenMinterError::ZeroBurnAmount))
    );
    assert_eq!(ctx.from.balance, 40);
    assert_eq!(ctx.mint.supply, 40);
}

#[test]
fn burn_decreases_balance_and_supply_exactly() {
    let created = created_context(100);
    let owner = addr(7);
    let mut ctx = BurnTokens { mint: created.mint, from: created.destination, authority: owner };
    assert_eq!(burn_tokens(&mut ctx, 30), Ok(()));
    assert_eq!(ctx.from.balance, 70);
    assert_eq!(ctx.mint.supply, 70);
}

#[test]
fn burn_more_than_balance_fails_with_insufficient_funds() {
    let created = created_context(20);
    let owner = addr(7);
    let mut ctx = BurnTokens { mint: created.mint, from: created.destination, authority: owner };
    assert_eq!(
        burn_tokens(&mut ctx, 21),
        Err(ProgramError::Token(TokenError::InsufficientFunds))
    );
    assert_eq!(ctx.from.balance, 20);
    assert_eq!(ctx.mint.supply, 20);
}

#[test]
fn burn_by_non_owner_fails() {
    let created = created_context(20);
    let mut ctx = BurnTokens {
        mint: created.mint,
        from: created.destination,
        authority: addr(13),
    };
    assert_eq!(
        burn_tokens(&mut ctx, 5),
        Err(ProgramError::Token(TokenError::AuthorityMismatch))
    );
    assert_eq!(ctx.from.balance, 20);
}

#[test]
fn freeze_with_non_derived_account_fails_seed_constraint() {
    let created = created_context(10);
    let mut ctx = UpdateTokenAccountState {
        mint: created.mint,
        token_account: created.destination,
        freeze_authority: addr(4),
    };
    assert_eq!(process_freeze_account(&mut ctx), Err(ProgramError::ConstraintSeeds));
    assert!(!ctx.token_account.frozen);
    assert_eq!(process_thaw_account(&mut ctx), Err(ProgramError::ConstraintSeeds));
}

#[test]
fn derivation_is_deterministic() {
    let (a, bump_a) = derived();
    let (b, bump_b) = derived();
    assert!(address_eq(&a, &b));
    assert_eq!(bump_a, bump_b);
    assert_eq!(a.bytes.len(), 32);
}

#[test]
fn derivation_matches_the_token_runtime() {
    let pid_bytes: [u8; 32] = program_id().bytes.try_into().expect("program id is 32 bytes");
    let pid = solana_program::pubkey::Pubkey::new_from_array(pid_bytes);
    let (expected, expected_bump) =
        solana_program::pubkey::Pubkey::find_program_address(&[b"mint_authority"], &pid);
    let (a, bump) = derived();
    assert_eq!(a.bytes, expected.to_bytes().to_vec());
    assert_eq!(bump, expected_bump);
    // The derived address is a genuine hash image, not the seed handed back.
    assert_ne!(a.bytes, b"mint_authority".to_vec());
}

#[test]
fn program_id_matches_declared_base58_form() {
    let decoded = bs58::decode("5j3eyHDGueYHnRVEEQa29d5EaGmwbKZYgbzoHCXEjseY")
        .into_vec()
        .expect("the declared id is valid base58");
    assert_eq!(program_id().bytes, decoded);
}

#[test]
fn error_kinds_carry_their_fixed_messages() {
    assert_eq!(
        TokenMinterError::ZeroMintAmount.message(),
        "Mint amount must be greater than zero."
    );
    assert_eq!(
        TokenMinterError::ZeroBurnAmount.message(),
        "Burn amount must be greater than zero."
    );
    assert_eq!(
        TokenMinterError::InvalidFreezeAuthority.message(),
        "The provided freeze authority is invalid."
    );
    assert_eq!(
        TokenMinterError::FreezeAuthorityNotSet.message(),
        "Freeze authority is not set on the Mint account."
    );
}
