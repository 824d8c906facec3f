//! The vault program: each user account records a balance that is held as lamports in a vault.

use crate::pubkey::find_address;
use crate::pubkey::program_address;
use crate::pubkey::Pubkey;
use vstd::prelude::*;
use vstd::string::*;

verus! {

/// Bytes of a user account: the discriminator, the authority and the balance.
pub const USER_ACCOUNT_SPACE: usize = 8 + 32 + 8;

/// What a user account stores.
#[derive(Clone, Copy, Debug)]
pub struct UserAccount {
    pub authority: Pubkey,
    pub balance: u64,
}

/// The errors of the program's own.
#[derive(Clone, Copy, Debug, PartialEq, Eq, Structural)]
pub enum ErrorCode {
    InsufficientFunds,
    Overflow,
}

/// A demand on the accounts of an instruction that they do not meet.
#[derive(Clone, Copy, Debug, PartialEq, Eq, Structural)]
pub enum ConstraintError {
    /// The authority did not sign.
    NotSigner,
    /// The user account cannot be written.
    UserReadOnly,
    /// The signer is not the authority that the user account stores.
    HasOne,
    /// The vault is not the address that the user account's key leads to.
    Seeds,
    /// The vault cannot be written.
    VaultReadOnly,
    /// The authority cannot be written.
    AuthorityReadOnly,
}

/// Why a deposit failed.
#[derive(Debug)]
pub enum DepositError<E> {
    /// The user account has no vault address.
    NoVault,
    /// The accounts do not meet a demand.
    Constraint(ConstraintError),
    /// The system program refused the transfer.
    Transfer(E),
    /// The program itself refused.
    Program(ErrorCode),
}

/// Why a withdrawal failed.
#[derive(Clone, Copy, Debug, PartialEq, Eq, Structural)]
pub enum WithdrawError {
    /// The user account has no vault address.
    NoVault,
    /// The accounts do not meet a demand.
    Constraint(ConstraintError),
    /// The program itself refused.
    Program(ErrorCode),
    /// A count of lamports would leave its range.
    OutOfRange,
}

/// What the program reads and changes of an account that holds lamports.
#[derive(Clone, Copy, Debug)]
pub struct LamportAccount {
    pub key: Pubkey,
    pub lamports: u64,
    pub is_signer: bool,
    pub is_writable: bool,
}

/// The accounts of `initialize`.
#[derive(Clone, Copy, Debug)]
pub struct Initialize {
    pub user: UserAccount,
    pub authority: LamportAccount,
}

/// The accounts of `deposit`.
#[derive(Clone, Copy, Debug)]
pub struct Deposit {
    pub user_key: Pubkey,
    pub user_is_writable: bool,
    pub user: UserAccount,
    pub vault: LamportAccount,
    pub authority: LamportAccount,
}

/// The accounts of `withdraw`.
#[derive(Clone, Copy, Debug)]
pub struct Withdraw {
    pub user_key: Pubkey,
    pub user_is_writable: bool,
    pub user: UserAccount,
    pub vault: LamportAccount,
    pub authority: LamportAccount,
}

/// A transfer that the system program is asked for.
#[derive(Clone, Copy, Debug)]
pub struct LamportTransfer {
    pub from: Pubkey,
    pub to: Pubkey,
    pub lamports: u64,
}

/// The seed `vault`.
pub open spec fn vault_seed() -> Seq<u8> {
    seq![118u8, 97u8, 117u8, 108u8, 116u8]
}

/// The vault address and bump seed of a user account, where there is one.
pub open spec fn vault_of(user_key: Pubkey, program_id: Pubkey) -> Option<(Seq<u8>, u8)> {
    program_address(seq![vault_seed(), user_key@], program_id@)
}

/// A lookup of a vault address, with the address as its bytes.
pub open spec fn found_view(found: Option<(Pubkey, u8)>) -> Option<(Seq<u8>, u8)> {
    match found {
        Some((key, bump)) => Some((key@, bump)),
        None => None,
    }
}

/// What the demands of `deposit` and `withdraw` on their accounts come to, where `found` is the
/// vault address of the user account: the first one that is not met, or nothing where the vault
/// has to be looked at and the user account has no vault address.
pub open spec fn constraints(
    user_is_writable: bool,
    user: UserAccount,
    vault: LamportAccount,
    authority: LamportAccount,
    found: Option<(Seq<u8>, u8)>,
) -> Option<Result<(), ConstraintError>> {
    if !authority.is_signer {
        Some(Err(ConstraintError::NotSigner))
    } else if !user_is_writable {
        Some(Err(ConstraintError::UserReadOnly))
    } else if user.authority != authority.key {
        Some(Err(ConstraintError::HasOne))
    } else {
        match found {
            None => None,
            Some((address, bump)) => if vault.key@ != address {
                Some(Err(ConstraintError::Seeds))
            } else if !vault.is_writable {
                Some(Err(ConstraintError::VaultReadOnly))
            } else if !authority.is_writable {
                Some(Err(ConstraintError::AuthorityReadOnly))
            } else {
                Some(Ok(()))
            },
        }
    }
}

impl ErrorCode {
    /// The text of the error.
    pub open spec fn message_spec(self) -> Seq<char> {
        match self {
            ErrorCode::InsufficientFunds => "Insufficient funds for withdrawal"@,
            ErrorCode::Overflow => "Numeric overflow occurred"@,
        }
    }

    /// The text of the error.
    pub fn message(&self) -> (r: String)
        ensures
            r@ == self.message_spec(),
            *self == ErrorCode::InsufficientFunds ==> r@ == "Insufficient funds for withdrawal"@,
            *self == ErrorCode::Overflow ==> r@ == "Numeric overflow occurred"@,
    {
        match self {
            ErrorCode::InsufficientFunds => String::from_str("Insufficient funds for withdrawal"),
            ErrorCode::Overflow => String::from_str("Numeric overflow occurred"),
        }
    }
}

/// Looks up the vault address of a user account and its bump seed.
pub fn vault_address(user_key: &Pubkey, program_id: &Pubkey) -> (r: Option<(Pubkey, u8)>)
    ensures
        found_view(r) == vault_of(*user_key, *program_id),
        match r {
            Some((key, bump)) => program_address(
                seq![seq![118u8, 97u8, 117u8, 108u8, 116u8], user_key.bytes@],
                program_id.bytes@,
            ) == Some((key.bytes@, bump)),
            None => program_address(
                seq![seq![118u8, 97u8, 117u8, 108u8, 116u8], user_key.bytes@],
                program_id.bytes@,
            ) is None,
        },
{
    let seed: [u8; 5] = [118, 97, 117, 108, 116];
    let found: Option<(Pubkey, u8)> = find_address(seed.as_slice(), user_key.bytes.as_slice(), program_id);
    proof {
        assert(seed@ =~= vault_seed());
    }
    found
}

/// Holds the accounts of `deposit` or `withdraw` against their demands, where `found` is the vault
/// address that was looked up.
pub fn check_accounts(
    user_is_writable: bool,
    user: &UserAccount,
    vault: &LamportAccount,
    authority: &LamportAccount,
    found: &Option<(Pubkey, u8)>,
) -> (r: Option<Result<(), ConstraintError>>)
    ensures
        r == constraints(user_is_writable, *user, *vault, *authority, found_view(*found)),
        r == Some(Ok::<(), ConstraintError>(())) <==> {
            &&& authority.is_signer && authority.is_writable
            &&& user_is_writable && vault.is_writable
            &&& user.authority == authority.key
            &&& found matches Some((address, bump)) && address == vault.key
        },
{
    if !authority.is_signer {
        return Some(Err(ConstraintError::NotSigner));
    }
    if !user_is_writable {
        return Some(Err(ConstraintError::UserReadOnly));
    }
    if !user.authority.same(&authority.key) {
        return Some(Err(ConstraintError::HasOne));
    }
    match found {
        None => None,
        Some((address, _bump)) => if !vault.key.same(address) {
            Some(Err(ConstraintError::Seeds))
        } else if !vault.is_writable {
            Some(Err(ConstraintError::VaultReadOnly))
        } else if !authority.is_writable {
            Some(Err(ConstraintError::AuthorityReadOnly))
        } else {
            Some(Ok(()))
        },
    }
}

impl Deposit {
    /// What the demands on the accounts come to.
    pub open spec fn constraints(self, found: Option<(Seq<u8>, u8)>) -> Option<Result<(), ConstraintError>> {
        constraints(self.user_is_writable, self.user, self.vault, self.authority, found)
    }

    /// The transfer that a deposit asks the system program for, where its accounts meet every
    /// demand.
    pub open spec fn begun(self, found: Option<(Seq<u8>, u8)>, amount: u64) -> Option<
        Result<LamportTransfer, ConstraintError>,
    > {
        match self.constraints(found) {
            None => None,
            Some(Err(e)) => Some(Err(e)),
            Some(Ok(())) => Some(
                Ok(LamportTransfer { from: self.authority.key, to: self.vault.key, lamports: amount }),
            ),
        }
    }

    /// The first half of a deposit, where `found` is the vault address that was looked up.
    pub fn begin_at(&self, found: &Option<(Pubkey, u8)>, amount: u64) -> (r: Option<
        Result<LamportTransfer, ConstraintError>,
    >)
        ensures
            r == self.begun(found_view(*found), amount),
    {
        match check_accounts(self.user_is_writable, &self.user, &self.vault, &self.authority, found) {
            None => None,
            Some(Err(e)) => Some(Err(e)),
            Some(Ok(())) => Some(
                Ok(LamportTransfer { from: self.authority.key, to: self.vault.key, lamports: amount }),
            ),
        }
    }

    /// The first half of a deposit: holds the accounts against their demands and names the
    /// transfer to ask the system program for, before the balance is credited.
    pub fn begin(&self, program_id: &Pubkey, amount: u64) -> (r: Option<Result<LamportTransfer, ConstraintError>>)
        ensures
            r == self.begun(vault_of(self.user_key, *program_id), amount),
    {
        let found: Option<(Pubkey, u8)> = vault_address(&self.user_key, program_id);
        self.begin_at(&found, amount)
    }
}

impl Withdraw {
    /// What the demands on the accounts come to.
    pub open spec fn constraints(self, found: Option<(Seq<u8>, u8)>) -> Option<Result<(), ConstraintError>> {
        constraints(self.user_is_writable, self.user, self.vault, self.authority, found)
    }

    /// Whether the vault and the authority are one account.
    pub open spec fn one_account(self) -> bool {
        self.vault.key == self.authority.key
    }

    /// One account has one count of lamports.
    pub open spec fn well_formed(self) -> bool {
        self.one_account() ==> self.vault.lamports == self.authority.lamports
    }

    /// Whether paying out `amount` keeps the lamport counts in range.
    pub open spec fn can_pay(self, amount: u64) -> bool {
        &&& amount <= self.vault.lamports
        &&& !self.one_account() ==> self.authority.lamports + amount <= u64::MAX
    }

    /// The accounts after `amount` was paid out. Where the vault and the authority are one
    /// account, it pays itself and keeps its lamports.
    pub open spec fn paid(self, amount: u64) -> Withdraw {
        let user = UserAccount { balance: (self.user.balance - amount) as u64, ..self.user };
        if self.one_account() {
            Withdraw { user, ..self }
        } else {
            Withdraw {
                user,
                vault: LamportAccount { lamports: (self.vault.lamports - amount) as u64, ..self.vault },
                authority: LamportAccount {
                    lamports: (self.authority.lamports + amount) as u64,
                    ..self.authority
                },
                ..self
            }
        }
    }
}

/// What a deposit makes of the accounts once the system program has answered: accounts that do not
/// meet the demands, a refused transfer and a sum out of range are errors without a change, and
/// otherwise the balance is credited.
pub open spec fn deposited<E>(
    before: Deposit,
    after: Deposit,
    found: Option<(Seq<u8>, u8)>,
    amount: u64,
    transfer: Result<(), E>,
    r: Result<(), DepositError<E>>,
) -> bool {
    match before.constraints(found) {
        None => r == Err::<(), DepositError<E>>(DepositError::NoVault) && after == before,
        Some(Err(e)) => r == Err::<(), DepositError<E>>(DepositError::Constraint(e)) && after == before,
        Some(Ok(())) => match transfer {
            Err(e) => r == Err::<(), DepositError<E>>(DepositError::Transfer(e)) && after == before,
            Ok(()) => if before.user.balance + amount <= u64::MAX {
                &&& r == Ok::<(), DepositError<E>>(())
                &&& after == (Deposit {
                    user: UserAccount { balance: (before.user.balance + amount) as u64, ..before.user },
                    ..before
                })
            } else {
                &&& r == Err::<(), DepositError<E>>(DepositError::Program(ErrorCode::Overflow))
                &&& after == before
            },
        },
    }
}

/// What a withdrawal makes of the accounts: nothing but an error where they do not meet the
/// demands, where the balance is short of the amount, or where a count of lamports would leave its
/// range.
pub open spec fn withdrawn(
    before: Withdraw,
    after: Withdraw,
    found: Option<(Seq<u8>, u8)>,
    amount: u64,
    r: Result<(), WithdrawError>,
) -> bool {
    match before.constraints(found) {
        None => r == Err::<(), WithdrawError>(WithdrawError::NoVault) && after == before,
        Some(Err(e)) => r == Err::<(), WithdrawError>(WithdrawError::Constraint(e)) && after == before,
        Some(Ok(())) => if before.user.balance < amount {
            &&& r == Err::<(), WithdrawError>(WithdrawError::Program(ErrorCode::InsufficientFunds))
            &&& after == before
        } else if !before.can_pay(amount) {
            r == Err::<(), WithdrawError>(WithdrawError::OutOfRange) && after == before
        } else {
            r == Ok::<(), WithdrawError>(()) && after == before.paid(amount)
        },
    }
}

/// What `initialize` makes of the accounts: an error without a change where the authority did not
/// sign or cannot pay, and otherwise an empty user account of the signer.
pub open spec fn initialized(before: Initialize, after: Initialize, r: Result<(), ConstraintError>) -> bool {
    if !before.authority.is_signer {
        r == Err::<(), ConstraintError>(ConstraintError::NotSigner) && after == before
    } else if !before.authority.is_writable {
        r == Err::<(), ConstraintError>(ConstraintError::AuthorityReadOnly) && after == before
    } else {
        &&& r == Ok::<(), ConstraintError>(())
        &&& after == (Initialize {
            user: UserAccount { authority: before.authority.key, balance: 0 },
            ..before
        })
    }
}

/// Hands the user account to the signer, with an empty balance.
pub fn initialize(ctx: &mut Initialize) -> (r: Result<(), ConstraintError>)
    ensures
        initialized(*old(ctx), *final(ctx), r),
{
    if !ctx.authority.is_signer {
        return Err(ConstraintError::NotSigner);
    }
    if !ctx.authority.is_writable {
        return Err(ConstraintError::AuthorityReadOnly);
    }
    ctx.user.authority = ctx.authority.key;
    ctx.user.balance = 0;
    Ok(())
}

/// The second half of a deposit, where `found` is the vault address that was looked up.
pub fn deposit_at<E>(
    ctx: &mut Deposit,
    found: &Option<(Pubkey, u8)>,
    amount: u64,
    transfer: Result<(), E>,
) -> (r: Result<(), DepositError<E>>)
    ensures
        deposited(*old(ctx), *final(ctx), found_view(*found), amount, transfer, r),
{
    match check_accounts(ctx.user_is_writable, &ctx.user, &ctx.vault, &ctx.authority, found) {
        None => Err(DepositError::NoVault),
        Some(Err(e)) => Err(DepositError::Constraint(e)),
        Some(Ok(())) => match transfer {
            Err(e) => Err(DepositError::Transfer(e)),
            Ok(()) => match ctx.user.balance.checked_add(amount) {
                Some(balance) => {
                    ctx.user.balance = balance;
                    Ok(())
                },
                None => Err(DepositError::Program(ErrorCode::Overflow)),
            },
        },
    }
}

/// The second half of a deposit: credits the balance with `amount`, where the accounts meet their
/// demands and the transfer to the vault was done.
pub fn deposit<E>(ctx: &mut Deposit, program_id: &Pubkey, amount: u64, transfer: Result<(), E>) -> (r: Result<
    (),
    DepositError<E>,
>)
    ensures
        deposited(*old(ctx), *final(ctx), vault_of(old(ctx).user_key, *program_id), amount, transfer, r),
{
    let found: Option<(Pubkey, u8)> = vault_address(&ctx.user_key, program_id);
    deposit_at(ctx, &found, amount, transfer)
}

/// A withdrawal, where `found` is the vault address that was looked up.
pub fn withdraw_at(ctx: &mut Withdraw, found: &Option<(Pubkey, u8)>, amount: u64) -> (r: Result<(), WithdrawError>)
    ensures
        withdrawn(*old(ctx), *final(ctx), found_view(*found), amount, r),
        old(ctx).well_formed() ==> final(ctx).well_formed(),
{
    match check_accounts(ctx.user_is_writable, &ctx.user, &ctx.vault, &ctx.authority, found) {
        None => return Err(WithdrawError::NoVault),
        Some(Err(e)) => return Err(WithdrawError::Constraint(e)),
        Some(Ok(())) => {},
    }
    let balance: u64 = match ctx.user.balance.checked_sub(amount) {
        None => return Err(WithdrawError::Program(ErrorCode::InsufficientFunds)),
        Some(balance) => balance,
    };
    let vault: u64 = match ctx.vault.lamports.checked_sub(amount) {
        None => return Err(WithdrawError::OutOfRange),
        Some(lamports) => lamports,
    };
    if !ctx.vault.key.same(&ctx.authority.key) {
        match ctx.authority.lamports.checked_add(amount) {
            None => return Err(WithdrawError::OutOfRange),
            Some(authority) => {
                ctx.vault.lamports = vault;
                ctx.authority.lamports = authority;
            },
        }
    }
    ctx.user.balance = balance;
    Ok(())
}

/// Withdraws lamports from the vault back to the authority and updates the balance, where the
/// accounts meet their demands.
pub fn withdraw(ctx: &mut Withdraw, program_id: &Pubkey, amount: u64) -> (r: Result<(), WithdrawError>)
    ensures
        withdrawn(*old(ctx), *final(ctx), vault_of(old(ctx).user_key, *program_id), amount, r),
        old(ctx).well_formed() ==> final(ctx).well_formed(),
{
    let found: Option<(Pubkey, u8)> = vault_address(&ctx.user_key, program_id);
    withdraw_at(ctx, &found, amount)
}

/// The numbers that deposits and withdrawals move.
pub struct VaultState {
    pub balance: int,
    pub vault: int,
    pub authority: int,
}

impl Deposit {
    /// The numbers that the accounts hold.
    pub open spec fn state(self) -> VaultState {
        VaultState {
            balance: self.user.balance as int,
            vault: self.vault.lamports as int,
            authority: self.authority.lamports as int,
        }
    }
}

impl Withdraw {
    /// The numbers that the accounts hold.
    pub open spec fn state(self) -> VaultState {
        VaultState {
            balance: self.user.balance as int,
            vault: self.vault.lamports as int,
            authority: self.authority.lamports as int,
        }
    }
}

/// An instruction that moves lamports.
pub enum VaultOp {
    Deposit(u64),
    Withdraw(u64),
}

/// The state after an instruction; a refused one changes nothing.
pub open spec fn vault_step(s: VaultState, op: VaultOp) -> VaultState {
    match op {
        VaultOp::Deposit(amount) => if s.balance + amount <= u64::MAX {
            VaultState {
                balance: s.balance + amount,
                vault: s.vault + amount,
                authority: s.authority - amount,
            }
        } else {
            s
        },
        VaultOp::Withdraw(amount) => if s.balance < amount {
            s
        } else {
            VaultState {
                balance: s.balance - amount,
                vault: s.vault - amount,
                authority: s.authority + amount,
            }
        },
    }
}

/// The state after a series of instructions.
pub open spec fn vault_run(s: VaultState, ops: Seq<VaultOp>) -> VaultState
    decreases ops.len(),
{
    if ops.len() == 0 {
        s
    } else {
        vault_step(vault_run(s, ops.drop_last()), ops.last())
    }
}

/// What the series of instructions has credited and not paid out again: the sum of the deposits
/// that were accepted less the sum of the withdrawals that were accepted.
pub open spec fn net_deposits(s: VaultState, ops: Seq<VaultOp>) -> int
    decreases ops.len(),
{
    if ops.len() == 0 {
        0
    } else {
        let before = vault_run(s, ops.drop_last());
        net_deposits(s, ops.drop_last()) + match ops.last() {
            VaultOp::Deposit(amount) => if before.balance + amount <= u64::MAX {
                amount as int
            } else {
                0
            },
            VaultOp::Withdraw(amount) => if before.balance < amount {
                0
            } else {
                -amount
            },
        }
    }
}

/// Whether the transfer that a deposit asks for, between two accounts, took `before` to `after`.
pub open spec fn transfer_done(before: Deposit, after: Deposit, amount: u64) -> bool {
    &&& before.vault.key != before.authority.key
    &&& amount <= before.authority.lamports
    &&& before.vault.lamports + amount <= u64::MAX
    &&& after == (Deposit {
        vault: LamportAccount { lamports: (before.vault.lamports + amount) as u64, ..before.vault },
        authority: LamportAccount {
            lamports: (before.authority.lamports - amount) as u64,
            ..before.authority
        },
        ..before
    })
}

/// Only the authority that the user account stores can deposit, and only with its signature: for
/// anyone else no transfer is asked for, and the deposit is an error that changes nothing,
/// whatever the amount and the other accounts are.
pub proof fn stranger_cannot_deposit<E>(
    before: Deposit,
    after: Deposit,
    program_id: Pubkey,
    amount: u64,
    transfer: Result<(), E>,
    r: Result<(), DepositError<E>>,
)
    requires
        !before.authority.is_signer || before.authority.key != before.user.authority,
        deposited(before, after, vault_of(before.user_key, program_id), amount, transfer, r),
    ensures
        !(before.begun(vault_of(before.user_key, program_id), amount) matches Some(Ok(t))),
        r is Err,
        after == before,
{
}

/// Only the authority that the user account stores can withdraw, and only with its signature: for
/// anyone else it is an error that changes nothing, whatever the amount and the other accounts
/// are.
pub proof fn stranger_cannot_withdraw(
    before: Withdraw,
    after: Withdraw,
    program_id: Pubkey,
    amount: u64,
    r: Result<(), WithdrawError>,
)
    requires
        !before.authority.is_signer || before.authority.key != before.user.authority,
        withdrawn(before, after, vault_of(before.user_key, program_id), amount, r),
    ensures
        r is Err,
        after == before,
{
}

/// Only the user's own vault takes deposits: with any other one no transfer is asked for, and the
/// deposit is an error that changes nothing.
pub proof fn foreign_vault_takes_no_deposit<E>(
    before: Deposit,
    after: Deposit,
    program_id: Pubkey,
    amount: u64,
    transfer: Result<(), E>,
    r: Result<(), DepositError<E>>,
)
    requires
        !(vault_of(before.user_key, program_id) matches Some((own, bump)) && before.vault.key@ == own),
        deposited(before, after, vault_of(before.user_key, program_id), amount, transfer, r),
    ensures
        !(before.begun(vault_of(before.user_key, program_id), amount) matches Some(Ok(t))),
        r is Err,
        after == before,
{
}

/// Only the user's own vault pays: with any other one a withdrawal is an error that changes
/// nothing.
pub proof fn foreign_vault_pays_nothing(
    before: Withdraw,
    after: Withdraw,
    program_id: Pubkey,
    amount: u64,
    r: Result<(), WithdrawError>,
)
    requires
        !(vault_of(before.user_key, program_id) matches Some((own, bump)) && before.vault.key@ == own),
        withdrawn(before, after, vault_of(before.user_key, program_id), amount, r),
    ensures
        r is Err,
        after == before,
{
}

/// A deposit that fails, for whatever reason, changes nothing.
pub proof fn failed_deposit_changes_nothing<E>(
    before: Deposit,
    after: Deposit,
    program_id: Pubkey,
    amount: u64,
    transfer: Result<(), E>,
    r: Result<(), DepositError<E>>,
)
    requires
        r is Err,
        deposited(before, after, vault_of(before.user_key, program_id), amount, transfer, r),
    ensures
        after == before,
{
}

/// A withdrawal that fails, for whatever reason, changes nothing.
pub proof fn failed_withdrawal_changes_nothing(
    before: Withdraw,
    after: Withdraw,
    program_id: Pubkey,
    amount: u64,
    r: Result<(), WithdrawError>,
)
    requires
        r is Err,
        withdrawn(before, after, vault_of(before.user_key, program_id), amount, r),
    ensures
        after == before,
{
}

/// A deposit is credited only after it was begun: where the second half succeeds, the first half
/// named the transfer from the authority to the vault.
pub proof fn credited_deposit_was_begun<E>(
    before: Deposit,
    after: Deposit,
    found: Option<(Seq<u8>, u8)>,
    amount: u64,
    transfer: Result<(), E>,
    r: Result<(), DepositError<E>>,
)
    requires
        deposited(before, after, found, amount, transfer, r),
        r is Ok,
    ensures
        transfer is Ok,
        before.begun(found, amount) == Some(
            Ok::<LamportTransfer, ConstraintError>(
                LamportTransfer { from: before.authority.key, to: before.vault.key, lamports: amount },
            ),
        ),
{
}

/// The signer of `initialize` is admitted to the user account afterwards, with its own vault.
pub proof fn authority_is_admitted(
    before: Initialize,
    after: Initialize,
    r: Result<(), ConstraintError>,
    user_key: Pubkey,
    vault: LamportAccount,
    program_id: Pubkey,
)
    requires
        initialized(before, after, r),
        r is Ok,
        vault_of(user_key, program_id) matches Some((own, bump)) && vault.key@ == own,
        vault.is_writable,
    ensures
        constraints(true, after.user, vault, after.authority, vault_of(user_key, program_id)) == Some(
            Ok::<(), ConstraintError>(()),
        ),
{
}

/// A deposit whose transfer was done, and whose balance was credited, is a step of the vault and
/// leaves the authority in place.
pub proof fn deposit_is_a_step<E>(
    before: Deposit,
    paid: Deposit,
    after: Deposit,
    found: Option<(Seq<u8>, u8)>,
    amount: u64,
    r: Result<(), DepositError<E>>,
)
    requires
        transfer_done(before, paid, amount),
        deposited(paid, after, found, amount, Ok(()), r),
        r is Ok,
    ensures
        after.state() == vault_step(before.state(), VaultOp::Deposit(amount)),
        after.user.authority == before.user.authority,
{
}

/// A deposit whose sum is out of range is a refused step of the vault, which leaves the vault where
/// it was before the transfer, and the user account is not touched.
pub proof fn overflowing_deposit_is_a_refused_step<E>(
    before: Deposit,
    paid: Deposit,
    after: Deposit,
    found: Option<(Seq<u8>, u8)>,
    amount: u64,
    r: Result<(), DepositError<E>>,
)
    requires
        transfer_done(before, paid, amount),
        deposited(paid, after, found, amount, Ok(()), r),
        r == Err::<(), DepositError<E>>(DepositError::Program(ErrorCode::Overflow)),
    ensures
        vault_step(before.state(), VaultOp::Deposit(amount)) == before.state(),
        after.user == before.user,
{
}

/// A withdrawal from a vault apart from the authority, accepted or refused by the program, is a
/// step of the vault and leaves the authority in place.
pub proof fn withdrawal_is_a_step(
    before: Withdraw,
    after: Withdraw,
    found: Option<(Seq<u8>, u8)>,
    amount: u64,
    r: Result<(), WithdrawError>,
)
    requires
        !before.one_account(),
        withdrawn(before, after, found, amount, r),
        r is Ok || r matches Err(WithdrawError::Program(e)),
    ensures
        after.state() == vault_step(before.state(), VaultOp::Withdraw(amount)),
        after.user.authority == before.user.authority,
{
}

/// A withdrawal by the rightful signer never fails for overflow of the balance: what the program
/// refuses, it refuses for want of funds.
pub proof fn withdrawal_never_overflows(
    before: Withdraw,
    after: Withdraw,
    found: Option<(Seq<u8>, u8)>,
    amount: u64,
    r: Result<(), WithdrawError>,
)
    requires
        withdrawn(before, after, found, amount, r),
    ensures
        r != Err::<(), WithdrawError>(WithdrawError::Program(ErrorCode::Overflow)),
        before.constraints(found) == Some(Ok::<(), ConstraintError>(())) ==> (before.user.balance < amount
            <==> r == Err::<(), WithdrawError>(WithdrawError::Program(ErrorCode::InsufficientFunds))),
{
}

/// Where the vault holds the balance, and all lamports together stay in range, the rightful signer
/// can withdraw every amount up to the balance.
pub proof fn backed_withdrawal_is_paid(
    before: Withdraw,
    after: Withdraw,
    found: Option<(Seq<u8>, u8)>,
    amount: u64,
    r: Result<(), WithdrawError>,
)
    requires
        withdrawn(before, after, found, amount, r),
        before.constraints(found) == Some(Ok::<(), ConstraintError>(())),
        before.user.balance <= before.vault.lamports,
        !before.one_account() ==> before.vault.lamports + before.authority.lamports <= u64::MAX,
        amount <= before.user.balance,
    ensures
        r is Ok,
        after == before.paid(amount),
{
}

/// Withdrawing what was just deposited restores every number.
pub proof fn withdrawal_undoes_deposit(s: VaultState, amount: u64)
    requires
        0 <= s.balance,
        s.balance + amount <= u64::MAX,
    ensures
        vault_step(vault_step(s, VaultOp::Deposit(amount)), VaultOp::Withdraw(amount)) == s,
{
}

/// Over any series of instructions no lamport appears or is lost, the balance is what was
/// deposited and not withdrawn, it stays in range, and what the vault holds beyond it stays the
/// same.
pub proof fn vault_keeps_its_books(s: VaultState, ops: Seq<VaultOp>)
    requires
        0 <= s.balance <= u64::MAX,
    ensures
        vault_run(s, ops).vault + vault_run(s, ops).authority == s.vault + s.authority,
        vault_run(s, ops).balance == s.balance + net_deposits(s, ops),
        0 <= vault_run(s, ops).balance <= u64::MAX,
        vault_run(s, ops).vault - vault_run(s, ops).balance == s.vault - s.balance,
    decreases ops.len(),
{
    if ops.len() > 0 {
        vault_keeps_its_books(s, ops.drop_last());
    }
}

/// A vault that once held its balance always does: after any series of instructions, every
/// withdrawal up to the balance finds its lamports in the vault.
pub proof fn balance_is_always_backed(s: VaultState, ops: Seq<VaultOp>, amount: u64)
    requires
        0 <= s.balance <= u64::MAX,
        s.balance <= s.vault,
        amount <= vault_run(s, ops).balance,
    ensures
        amount <= vault_run(s, ops).vault,
{
    vault_keeps_its_books(s, ops);
}

/// The vault of a user account is the address that the program derives from the seed `vault` and
/// the key of the user account.
pub proof fn vault_is_derived_from_the_user_key(user_key: Pubkey, program_id: Pubkey)
    ensures
        vault_of(user_key, program_id) == program_address(
            seq![seq![118u8, 97u8, 117u8, 108u8, 116u8], user_key.bytes@],
            program_id.bytes@,
        ),
{
    assert(vault_seed() =~= seq![118u8, 97u8, 117u8, 108u8, 116u8]);
}

/// A lookup keeps the address and the bump seed that it found.
pub proof fn lookup_keeps_what_it_found(key: Pubkey, bump: u8)
    ensures
        found_view(Some((key, bump))) == Some((key.bytes@, bump)),
        found_view(None) is None,
{
}

/// The rightful signer withdraws: where the authority signed and is the one that the user account
/// stores, all three accounts can be written, the vault is the address that was derived from the
/// user account's key, and the balance and the vault hold the amount, the balance and the vault
/// lose the amount, the authority gains it, and nothing else changes.
pub proof fn rightful_withdrawal_is_paid(
    before: Withdraw,
    after: Withdraw,
    program_id: Pubkey,
    bump: u8,
    amount: u64,
    r: Result<(), WithdrawError>,
)
    requires
        withdrawn(before, after, vault_of(before.user_key, program_id), amount, r),
        before.authority.is_signer,
        before.authority.is_writable,
        before.user_is_writable,
        before.vault.is_writable,
        before.user.authority == before.authority.key,
        program_address(
            seq![seq![118u8, 97u8, 117u8, 108u8, 116u8], before.user_key.bytes@],
            program_id.bytes@,
        ) == Some((before.vault.key.bytes@, bump)),
        before.vault.key != before.authority.key,
        amount <= before.user.balance,
        amount <= before.vault.lamports,
        before.authority.lamports + amount <= u64::MAX,
    ensures
        r is Ok,
        after.user.balance == before.user.balance - amount,
        after.vault.lamports == before.vault.lamports - amount,
        after.authority.lamports == before.authority.lamports + amount,
        after.user_key == before.user_key,
        after.user_is_writable == before.user_is_writable,
        after.user.authority == before.user.authority,
        after.vault.key == before.vault.key,
        after.vault.is_signer == before.vault.is_signer,
        after.vault.is_writable == before.vault.is_writable,
        after.authority.key == before.authority.key,
        after.authority.is_signer == before.authority.is_signer,
        after.authority.is_writable == before.authority.is_writable,
{
    vault_is_derived_from_the_user_key(before.user_key, program_id);
}

/// Every outcome of a withdrawal has exactly one cause, told by the accounts and the amount.
pub proof fn withdrawal_has_one_cause(
    before: Withdraw,
    after: Withdraw,
    found: Option<(Seq<u8>, u8)>,
    amount: u64,
    r: Result<(), WithdrawError>,
)
    requires
        withdrawn(before, after, found, amount, r),
    ensures
        ({
            let admitted = before.authority.is_signer && before.user_is_writable && before.user.authority
                == before.authority.key;
            let own = admitted && (found matches Some((address, bump)) && address == before.vault.key.bytes@);
            let open = own && before.vault.is_writable && before.authority.is_writable;
            let in_range = amount <= before.vault.lamports && (before.vault.key != before.authority.key
                ==> before.authority.lamports + amount <= u64::MAX);
            &&& r == Err::<(), WithdrawError>(WithdrawError::Constraint(ConstraintError::NotSigner)) <==> !before.authority.is_signer
            &&& r == Err::<(), WithdrawError>(WithdrawError::Constraint(ConstraintError::UserReadOnly)) <==> before.authority.is_signer
                && !before.user_is_writable
            &&& r == Err::<(), WithdrawError>(WithdrawError::Constraint(ConstraintError::HasOne)) <==> before.authority.is_signer
                && before.user_is_writable && before.user.authority != before.authority.key
            &&& r == Err::<(), WithdrawError>(WithdrawError::NoVault) <==> admitted && found is None
            &&& r == Err::<(), WithdrawError>(WithdrawError::Constraint(ConstraintError::Seeds)) <==> admitted && found is Some && !own
            &&& r == Err::<(), WithdrawError>(WithdrawError::Constraint(ConstraintError::VaultReadOnly)) <==> own
                && !before.vault.is_writable
            &&& r == Err::<(), WithdrawError>(WithdrawError::Constraint(ConstraintError::AuthorityReadOnly)) <==> own
                && before.vault.is_writable && !before.authority.is_writable
            &&& r == Err::<(), WithdrawError>(WithdrawError::Program(ErrorCode::InsufficientFunds)) <==> open
                && before.user.balance < amount
            &&& r == Err::<(), WithdrawError>(WithdrawError::OutOfRange) <==> open && before.user.balance >= amount
                && !in_range
            &&& r is Ok <==> open && before.user.balance >= amount && in_range
            &&& r is Err ==> after == before
        }),
{
}

/// What a withdrawal takes from the balance is what leaves the vault and what the authority gains;
/// an account that is both keeps its lamports. It changes no key, no flag and no owner.
pub proof fn withdrawal_moves_the_amount(
    before: Withdraw,
    after: Withdraw,
    found: Option<(Seq<u8>, u8)>,
    amount: u64,
    r: Result<(), WithdrawError>,
)
    requires
        withdrawn(before, after, found, amount, r),
        r is Ok,
    ensures
        before.user.balance - after.user.balance == amount,
        before.vault.key != before.authority.key ==> {
            &&& before.vault.lamports - after.vault.lamports == amount
            &&& after.authority.lamports - before.authority.lamports == amount
        },
        before.vault.key == before.authority.key ==> {
            &&& after.vault.lamports == before.vault.lamports
            &&& after.authority.lamports == before.authority.lamports
        },
        after.user_key == before.user_key,
        after.user_is_writable == before.user_is_writable,
        after.user.authority == before.user.authority,
        after.vault.key == before.vault.key,
        after.vault.is_signer == before.vault.is_signer,
        after.vault.is_writable == before.vault.is_writable,
        after.authority.key == before.authority.key,
        after.authority.is_signer == before.authority.is_signer,
        after.authority.is_writable == before.authority.is_writable,
{
}

/// Two withdrawals in a row do what one of the sum does.
pub proof fn withdrawals_add_up(
    before: Withdraw,
    middle: Withdraw,
    after: Withdraw,
    at_once: Withdraw,
    found: Option<(Seq<u8>, u8)>,
    first: u64,
    second: u64,
    r: Result<(), WithdrawError>,
)
    requires
        first + second <= u64::MAX,
        withdrawn(before, middle, found, first, Ok(())),
        withdrawn(middle, after, found, second, Ok(())),
        withdrawn(before, at_once, found, (first + second) as u64, r),
        before.vault.key != before.authority.key,
    ensures
        r is Ok,
        at_once == after,
{
}

/// Every outcome of a deposit has exactly one cause, told by the accounts, the amount and the
/// answer of the system program.
pub proof fn deposit_has_one_cause<E>(
    before: Deposit,
    after: Deposit,
    found: Option<(Seq<u8>, u8)>,
    amount: u64,
    transfer: Result<(), E>,
    r: Result<(), DepositError<E>>,
)
    requires
        deposited(before, after, found, amount, transfer, r),
    ensures
        ({
            let admitted = before.authority.is_signer && before.user_is_writable && before.user.authority
                == before.authority.key;
            let own = admitted && (found matches Some((address, bump)) && address == before.vault.key.bytes@);
            let open = own && before.vault.is_writable && before.authority.is_writable;
            &&& r == Err::<(), DepositError<E>>(DepositError::Constraint(ConstraintError::NotSigner)) <==> !before.authority.is_signer
            &&& r == Err::<(), DepositError<E>>(DepositError::Constraint(ConstraintError::UserReadOnly)) <==> before.authority.is_signer
                && !before.user_is_writable
            &&& r == Err::<(), DepositError<E>>(DepositError::Constraint(ConstraintError::HasOne)) <==> before.authority.is_signer
                && before.user_is_writable && before.user.authority != before.authority.key
            &&& r == Err::<(), DepositError<E>>(DepositError::NoVault) <==> admitted && found is None
            &&& r == Err::<(), DepositError<E>>(DepositError::Constraint(ConstraintError::Seeds)) <==> admitted && found is Some && !own
            &&& r == Err::<(), DepositError<E>>(DepositError::Constraint(ConstraintError::VaultReadOnly)) <==> own
                && !before.vault.is_writable
            &&& r == Err::<(), DepositError<E>>(DepositError::Constraint(ConstraintError::AuthorityReadOnly)) <==> own
                && before.vault.is_writable && !before.authority.is_writable
            &&& (r is Err && r->Err_0 is Transfer) <==> open && transfer is Err
            &&& open && transfer is Err ==> r == Err::<(), DepositError<E>>(DepositError::Transfer(transfer->Err_0))
            &&& r == Err::<(), DepositError<E>>(DepositError::Program(ErrorCode::Overflow)) <==> open && transfer is Ok
                && before.user.balance + amount > u64::MAX
            &&& r != Err::<(), DepositError<E>>(DepositError::Program(ErrorCode::InsufficientFunds))
            &&& r is Ok <==> open && transfer is Ok && before.user.balance + amount <= u64::MAX
            &&& r is Err ==> after == before
        }),
{
}

/// A deposit adds the amount to the balance and changes nothing else.
pub proof fn deposit_credits_the_amount<E>(
    before: Deposit,
    after: Deposit,
    found: Option<(Seq<u8>, u8)>,
    amount: u64,
    transfer: Result<(), E>,
    r: Result<(), DepositError<E>>,
)
    requires
        deposited(before, after, found, amount, transfer, r),
        r is Ok,
    ensures
        after.user.balance - before.user.balance == amount,
        after.user.authority == before.user.authority,
        after.user_key == before.user_key,
        after.user_is_writable == before.user_is_writable,
        after.vault == before.vault,
        after.authority == before.authority,
{
}

/// A deposit asks for a transfer of its amount from the authority to the vault exactly where all
/// demands on the accounts are met; otherwise the first one that is not met is told.
pub proof fn deposit_begins_for_the_rightful_signer(before: Deposit, found: Option<(Seq<u8>, u8)>, amount: u64)
    ensures
        ({
            let r = before.begun(found, amount);
            let admitted = before.authority.is_signer && before.user_is_writable && before.user.authority
                == before.authority.key;
            let own = admitted && (found matches Some((address, bump)) && address == before.vault.key.bytes@);
            let open = own && before.vault.is_writable && before.authority.is_writable;
            &&& open <==> r is Some && r->Some_0 is Ok
            &&& open ==> {
                let asked = r->Some_0->Ok_0;
                asked.from == before.authority.key && asked.to == before.vault.key && asked.lamports == amount
            }
            &&& r is None <==> admitted && found is None
            &&& r == Some(Err::<LamportTransfer, ConstraintError>(ConstraintError::NotSigner))
                <==> !before.authority.is_signer
            &&& r == Some(Err::<LamportTransfer, ConstraintError>(ConstraintError::UserReadOnly))
                <==> before.authority.is_signer && !before.user_is_writable
            &&& r == Some(Err::<LamportTransfer, ConstraintError>(ConstraintError::HasOne))
                <==> before.authority.is_signer && before.user_is_writable && before.user.authority
                != before.authority.key
            &&& r == Some(Err::<LamportTransfer, ConstraintError>(ConstraintError::Seeds)) <==> admitted
                && found is Some && !own
            &&& r == Some(Err::<LamportTransfer, ConstraintError>(ConstraintError::VaultReadOnly)) <==> own
                && !before.vault.is_writable
            &&& r == Some(Err::<LamportTransfer, ConstraintError>(ConstraintError::AuthorityReadOnly)) <==> own
                && before.vault.is_writable && !before.authority.is_writable
        }),
{
}

/// Each demand on the accounts fails for its own reason, the first one in order counts, and
/// accounts that meet all of them pass.
pub proof fn each_demand_has_its_reason(
    user_is_writable: bool,
    user: UserAccount,
    vault: LamportAccount,
    authority: LamportAccount,
    found: Option<(Seq<u8>, u8)>,
)
    ensures
        ({
            let r = constraints(user_is_writable, user, vault, authority, found);
            let admitted = authority.is_signer && user_is_writable && user.authority == authority.key;
            let own = admitted && (found matches Some((address, bump)) && address == vault.key.bytes@);
            &&& r == Some(Err::<(), ConstraintError>(ConstraintError::NotSigner)) <==> !authority.is_signer
            &&& r == Some(Err::<(), ConstraintError>(ConstraintError::UserReadOnly)) <==> authority.is_signer
                && !user_is_writable
            &&& r == Some(Err::<(), ConstraintError>(ConstraintError::HasOne)) <==> authority.is_signer
                && user_is_writable && user.authority != authority.key
            &&& r is None <==> admitted && found is None
            &&& r == Some(Err::<(), ConstraintError>(ConstraintError::Seeds)) <==> admitted && found is Some && !own
            &&& r == Some(Err::<(), ConstraintError>(ConstraintError::VaultReadOnly)) <==> own && !vault.is_writable
            &&& r == Some(Err::<(), ConstraintError>(ConstraintError::AuthorityReadOnly)) <==> own
                && vault.is_writable && !authority.is_writable
            &&& r == Some(Ok::<(), ConstraintError>(())) <==> own && vault.is_writable && authority.is_writable
        }),
{
}

/// `initialize` succeeds exactly for an authority that signed and can be written; the user account
/// is then the signer's, with nothing in it, and the authority is as it was.
pub proof fn new_account_is_the_signers(before: Initialize, after: Initialize, r: Result<(), ConstraintError>)
    requires
        initialized(before, after, r),
    ensures
        r is Ok <==> before.authority.is_signer && before.authority.is_writable,
        r == Err::<(), ConstraintError>(ConstraintError::NotSigner) <==> !before.authority.is_signer,
        r == Err::<(), ConstraintError>(ConstraintError::AuthorityReadOnly) <==> before.authority.is_signer
            && !before.authority.is_writable,
        r is Ok ==> after.user.authority == before.authority.key && after.user.balance == 0,
        r is Err ==> after.user == before.user,
        after.authority == before.authority,
{
}

} // verus!
