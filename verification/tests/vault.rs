use solana_toolkit::contract::check_accounts;
use solana_toolkit::contract::deposit;
use solana_toolkit::contract::deposit_at;
use solana_toolkit::contract::initialize;
use solana_toolkit::contract::vault_address;
use solana_toolkit::contract::withdraw;
use solana_toolkit::contract::withdraw_at;
use solana_toolkit::contract::ConstraintError;
use solana_toolkit::contract::Deposit;
use solana_toolkit::contract::DepositError;
use solana_toolkit::contract::ErrorCode;
use solana_toolkit::contract::Initialize;
use solana_toolkit::contract::LamportAccount;
use solana_toolkit::contract::UserAccount;
use solana_toolkit::contract::Withdraw;
use solana_toolkit::contract::WithdrawError;
use solana_toolkit::contract::USER_ACCOUNT_SPACE;
use solana_toolkit::pubkey::Pubkey;

fn key(b: u8) -> Pubkey {
    Pubkey { bytes: [b; 32] }
}

fn account(key: Pubkey, lamports: u64, is_signer: bool) -> LamportAccount {
    LamportAccount { key, lamports, is_signer, is_writable: true }
}

fn deposit_accounts(balance: u64, vault: u64, authority: u64) -> Deposit {
    Deposit {
        user_key: key(1),
        user_is_writable: true,
        user: UserAccount { authority: key(2), balance },
        vault: account(vault_address(&key(1), &key(9)).unwrap().0, vault, false),
        authority: account(key(2), authority, true),
    }
}

fn as_withdraw(d: &Deposit) -> Withdraw {
    Withdraw {
        user_key: d.user_key,
        user_is_writable: d.user_is_writable,
        user: d.user,
        vault: d.vault,
        authority: d.authority,
    }
}

fn as_deposit(w: &Withdraw) -> Deposit {
    Deposit {
        user_key: w.user_key,
        user_is_writable: w.user_is_writable,
        user: w.user,
        vault: w.vault,
        authority: w.authority,
    }
}

fn withdraw_accounts(balance: u64, vault: u64, authority: u64) -> Withdraw {
    as_withdraw(&deposit_accounts(balance, vault, authority))
}

#[test]
fn a_new_account_belongs_to_the_signer_and_is_empty() {
    let user = UserAccount { authority: key(0), balance: 77 };
    let mut ctx = Initialize { user, authority: account(key(2), 5, true) };
    assert!(initialize(&mut ctx).is_ok());
    assert_eq!(ctx.user.authority.bytes, [2; 32]);
    assert_eq!(ctx.user.balance, 0);
    assert_eq!(USER_ACCOUNT_SPACE, 48);
}

#[test]
fn nobody_gets_an_account_without_a_signature() {
    let user = UserAccount { authority: key(0), balance: 77 };
    let mut ctx = Initialize { user, authority: account(key(2), 5, false) };
    assert_eq!(initialize(&mut ctx), Err(ConstraintError::NotSigner));
    ctx.authority.is_signer = true;
    ctx.authority.is_writable = false;
    assert_eq!(initialize(&mut ctx), Err(ConstraintError::AuthorityReadOnly));
    assert_eq!(ctx.user.authority.bytes, [0; 32]);
    assert_eq!(ctx.user.balance, 77);
}

#[test]
fn a_deposit_credits_the_balance() {
    let mut ctx = deposit_accounts(10, 15, 90);
    let asked = ctx.begin(&key(9), 5).unwrap().unwrap();
    assert_eq!(asked.from.bytes, [2; 32]);
    assert_eq!(asked.to.bytes, ctx.vault.key.bytes);
    assert_eq!(asked.lamports, 5);
    assert!(deposit::<String>(&mut ctx, &key(9), 5, Ok(())).is_ok());
    assert_eq!(ctx.user.balance, 15);
    assert_eq!(ctx.user.authority.bytes, [2; 32]);
}

#[test]
fn a_deposit_beyond_the_range_is_refused() {
    let mut ctx = deposit_accounts(u64::MAX, 15, 90);
    let r = deposit::<String>(&mut ctx, &key(9), 1, Ok(()));
    assert!(matches!(r, Err(DepositError::Program(ErrorCode::Overflow))));
    assert_eq!(ctx.user.balance, u64::MAX);
    assert!(deposit::<String>(&mut ctx, &key(9), 0, Ok(())).is_ok());
}

#[test]
fn a_deposit_without_its_transfer_changes_nothing() {
    let mut ctx = deposit_accounts(10, 15, 90);
    let r = deposit(&mut ctx, &key(9), 5, Err("refused".to_string()));
    assert!(matches!(r, Err(DepositError::Transfer(e)) if e == "refused"));
    assert_eq!(ctx.user.balance, 10);
}

#[test]
fn a_withdrawal_moves_lamports_and_debits_the_balance() {
    let mut ctx = withdraw_accounts(10, 15, 90);
    assert!(withdraw(&mut ctx, &key(9), 10).is_ok());
    assert_eq!(ctx.user.balance, 0);
    assert_eq!(ctx.vault.lamports, 5);
    assert_eq!(ctx.authority.lamports, 100);
}

#[test]
fn a_withdrawal_beyond_the_balance_is_refused() {
    let mut ctx = withdraw_accounts(10, 1000, 90);
    assert_eq!(withdraw(&mut ctx, &key(9), 11), Err(WithdrawError::Program(ErrorCode::InsufficientFunds)));
    assert_eq!(ctx.user.balance, 10);
    assert_eq!(ctx.vault.lamports, 1000);
    assert_eq!(ctx.authority.lamports, 90);
}

#[test]
fn an_account_that_pays_itself_keeps_its_lamports() {
    let mut ctx = withdraw_accounts(10, 15, 15);
    ctx.vault.key = ctx.authority.key;
    let found = Some((ctx.vault.key, 255));
    assert_eq!(withdraw_at(&mut ctx, &found, 16), Err(WithdrawError::Program(ErrorCode::InsufficientFunds)));
    assert_eq!(withdraw_at(&mut ctx, &found, 10), Ok(()));
    assert_eq!(ctx.user.balance, 0);
    assert_eq!(ctx.vault.lamports, 15);
    assert_eq!(ctx.authority.lamports, 15);
}

#[test]
fn a_withdrawal_undoes_a_deposit() {
    let mut d = deposit_accounts(10, 15, 90);
    d.vault.lamports += 5;
    d.authority.lamports -= 5;
    assert!(deposit::<String>(&mut d, &key(9), 5, Ok(())).is_ok());
    let mut w = as_withdraw(&d);
    assert!(withdraw(&mut w, &key(9), 5).is_ok());
    assert_eq!(w.user.balance, 10);
    assert_eq!(w.vault.lamports, 15);
    assert_eq!(w.authority.lamports, 90);
}

#[test]
fn a_series_of_instructions_keeps_the_books() {
    let mut w = withdraw_accounts(0, 3, 100);
    for (credit, amount, accepted) in
        [(true, 40, true), (false, 15, true), (false, 26, false), (true, 1, true), (false, 26, true)]
    {
        if credit {
            let mut d = as_deposit(&w);
            d.vault.lamports += amount;
            d.authority.lamports -= amount;
            assert_eq!(deposit::<String>(&mut d, &key(9), amount, Ok(())).is_ok(), accepted);
            w = as_withdraw(&d);
        } else {
            assert_eq!(withdraw(&mut w, &key(9), amount).is_ok(), accepted);
        }
        assert_eq!(w.vault.lamports + w.authority.lamports, 103);
        assert_eq!(w.vault.lamports - w.user.balance, 3);
    }
    assert_eq!(w.user.balance, 0);
}

#[test]
fn the_vault_address_is_derived_from_the_user_account() {
    let (found, bump) = vault_address(&key(1), &key(9)).unwrap();
    let program: solana_sdk::pubkey::Pubkey = [9u8; 32].into();
    let (expected, expected_bump) =
        solana_sdk::pubkey::Pubkey::find_program_address(&[b"vault", &[1u8; 32]], &program);
    assert_eq!(found.bytes, expected.to_bytes());
    assert_eq!(bump, expected_bump);
    assert_ne!(found.bytes, vault_address(&key(3), &key(9)).unwrap().0.bytes);
    assert_ne!(found.bytes, vault_address(&key(1), &key(8)).unwrap().0.bytes);
}

#[test]
fn a_stranger_is_refused() {
    let mut d = deposit_accounts(100, 150, 7);
    d.user.authority = key(3);
    assert_eq!(d.begin(&key(9), 5).unwrap().err(), Some(ConstraintError::HasOne));
    let r = deposit::<String>(&mut d, &key(9), 5, Ok(()));
    assert!(matches!(r, Err(DepositError::Constraint(ConstraintError::HasOne))));
    assert_eq!((d.user.balance, d.vault.lamports, d.authority.lamports), (100, 150, 7));

    let mut w = as_withdraw(&d);
    for amount in [0, 100, u64::MAX] {
        let r = withdraw(&mut w, &key(9), amount);
        assert_eq!(r, Err(WithdrawError::Constraint(ConstraintError::HasOne)));
        assert_eq!((w.user.balance, w.vault.lamports, w.authority.lamports), (100, 150, 7));
    }
}

#[test]
fn an_authority_that_did_not_sign_is_refused() {
    let mut d = deposit_accounts(100, 150, 7);
    d.authority.is_signer = false;
    assert_eq!(d.begin(&key(9), 5).unwrap().err(), Some(ConstraintError::NotSigner));
    let r = deposit::<String>(&mut d, &key(9), 5, Ok(()));
    assert!(matches!(r, Err(DepositError::Constraint(ConstraintError::NotSigner))));
    let mut w = as_withdraw(&d);
    let r = withdraw(&mut w, &key(9), 100);
    assert_eq!(r, Err(WithdrawError::Constraint(ConstraintError::NotSigner)));
    assert_eq!((w.user.balance, w.vault.lamports, w.authority.lamports), (100, 150, 7));
}

#[test]
fn another_vault_is_refused() {
    let mut d = deposit_accounts(100, 150, 7);
    d.vault.key = key(4);
    assert_eq!(d.begin(&key(9), 5).unwrap().err(), Some(ConstraintError::Seeds));
    let r = deposit::<String>(&mut d, &key(9), 5, Ok(()));
    assert!(matches!(r, Err(DepositError::Constraint(ConstraintError::Seeds))));
    let mut w = as_withdraw(&d);
    assert_eq!(withdraw(&mut w, &key(9), 100), Err(WithdrawError::Constraint(ConstraintError::Seeds)));
    assert_eq!((w.user.balance, w.vault.lamports, w.authority.lamports), (100, 150, 7));
    let mut w = withdraw_accounts(100, 150, 7);
    assert_eq!(withdraw(&mut w, &key(8), 100), Err(WithdrawError::Constraint(ConstraintError::Seeds)));
}

#[test]
fn a_user_account_without_a_vault_address_is_refused() {
    let mut d = deposit_accounts(100, 150, 7);
    assert!(d.begin_at(&None, 5).is_none());
    assert!(matches!(deposit_at::<String>(&mut d, &None, 5, Ok(())), Err(DepositError::NoVault)));
    let mut w = as_withdraw(&d);
    assert_eq!(withdraw_at(&mut w, &None, 5), Err(WithdrawError::NoVault));
    assert_eq!((w.user.balance, w.vault.lamports, w.authority.lamports), (100, 150, 7));
    w.user.authority = key(3);
    assert_eq!(withdraw_at(&mut w, &None, 5), Err(WithdrawError::Constraint(ConstraintError::HasOne)));
}

#[test]
fn the_first_demand_that_is_not_met_counts() {
    let user = UserAccount { authority: key(2), balance: 0 };
    let mut vault = account(key(5), 0, false);
    let mut authority = account(key(2), 0, true);
    let found = Some((key(5), 254));
    assert_eq!(check_accounts(true, &user, &vault, &authority, &found), Some(Ok(())));
    authority.is_writable = false;
    let r = check_accounts(true, &user, &vault, &authority, &found);
    assert_eq!(r, Some(Err(ConstraintError::AuthorityReadOnly)));
    vault.is_writable = false;
    let r = check_accounts(true, &user, &vault, &authority, &found);
    assert_eq!(r, Some(Err(ConstraintError::VaultReadOnly)));
    vault.key = key(6);
    assert_eq!(check_accounts(true, &user, &vault, &authority, &found), Some(Err(ConstraintError::Seeds)));
    assert_eq!(check_accounts(true, &user, &vault, &authority, &None), None);
    authority.key = key(3);
    assert_eq!(check_accounts(true, &user, &vault, &authority, &found), Some(Err(ConstraintError::HasOne)));
    let r = check_accounts(false, &user, &vault, &authority, &found);
    assert_eq!(r, Some(Err(ConstraintError::UserReadOnly)));
    authority.is_signer = false;
    let r = check_accounts(false, &user, &vault, &authority, &found);
    assert_eq!(r, Some(Err(ConstraintError::NotSigner)));
}

#[test]
fn lamports_out_of_range_are_refused() {
    let mut w = withdraw_accounts(10, 9, 90);
    assert_eq!(withdraw(&mut w, &key(9), 10), Err(WithdrawError::OutOfRange));
    assert_eq!((w.user.balance, w.vault.lamports, w.authority.lamports), (10, 9, 90));
    let mut w = withdraw_accounts(10, 15, u64::MAX - 9);
    assert_eq!(withdraw(&mut w, &key(9), 10), Err(WithdrawError::OutOfRange));
    assert_eq!((w.user.balance, w.vault.lamports, w.authority.lamports), (10, 15, u64::MAX - 9));
    assert_eq!(withdraw(&mut w, &key(9), 9), Ok(()));
    assert_eq!((w.user.balance, w.vault.lamports, w.authority.lamports), (1, 6, u64::MAX));
}

#[test]
fn the_signer_of_a_new_account_can_withdraw_from_it() {
    let user = UserAccount { authority: key(0), balance: 77 };
    let mut ctx = Initialize { user, authority: account(key(2), 5, true) };
    assert_eq!(initialize(&mut ctx), Ok(()));
    let mut w = withdraw_accounts(0, 3, 5);
    w.user = ctx.user;
    w.authority = ctx.authority;
    assert_eq!(withdraw(&mut w, &key(9), 0), Ok(()));
}

#[test]
fn errors_have_their_texts() {
    assert_eq!(ErrorCode::InsufficientFunds.message(), "Insufficient funds for withdrawal");
    assert_eq!(ErrorCode::Overflow.message(), "Numeric overflow occurred");
}
