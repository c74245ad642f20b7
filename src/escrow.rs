use vstd::prelude::*;
use crate::address::{find_vault_authority, vault_authority_of, Address};
use crate::ledger::{
    is_live, spec_close_account, spec_set_authority, spec_transfer, CloseAccount, Ledger,
    LedgerError, SetAuthority, TokenAccount, Transfer,
};

verus! {

/// The terms of one open deal.
#[derive(Clone, Copy, Debug)]
pub struct EscrowAccount {
    /// Key to authorize actions properly.
    pub initializer_key: Address,
    /// Initializer's deposit account.
    pub initializer_deposit_token_account: Address,
    /// Initializer's receive account.
    pub initializer_receive_token_account: Address,
    /// How many tokens the initializer should send to taker.
    pub initializer_amount: u64,
    /// How many tokens the initializer should receive from the taker.
    pub taker_amount: u64,
}

/// Why an escrow operation was refused. A refused operation changes nothing.
#[derive(Clone, Copy, Debug, PartialEq, Eq, Structural)]
pub enum EscrowError {
    /// A party that must co-sign did not.
    NotSigner,
    /// The record slot or the vault slot is not fresh.
    AccountInUse,
    /// A named token account does not exist.
    AccountMissing,
    /// One token account is named for two mutable roles.
    DuplicateAccount,
    /// There is no open deal in the record slot.
    RecordMissing,
    /// The caller is not the deal's initializer.
    IdentityMismatch,
    /// A token account differs from the one bound to the deal.
    AccountMismatch,
    /// The paying account holds less than the amount due.
    InsufficientBalance,
    /// The vault authority handed in is not the derived one.
    VaultAuthorityMismatch,
    /// The vault does not hold the deposit of the deal.
    IntegrityFault,
    /// No vault authority can be derived for the program.
    AuthorityUnavailable,
    /// The ledger refused a call.
    Ledger(LedgerError),
}

/// The ledger and the record slot after an operation, or why it failed.
pub type Outcome = Result<(Seq<TokenAccount>, Option<EscrowAccount>), EscrowError>;

/// `r` reports `spec`, the outcome of an operation that took the ledger from
/// `before` to `after` and the record slot from `rec_before` to `rec_after`.
/// A failed operation changes nothing.
pub open spec fn escrow_outcome(
    spec: Outcome,
    r: Result<(), EscrowError>,
    before: Seq<TokenAccount>,
    rec_before: Option<EscrowAccount>,
    after: Seq<TokenAccount>,
    rec_after: Option<EscrowAccount>,
) -> bool {
    match spec {
        Ok((s, rec)) => r is Ok && after == s && rec_after == rec,
        Err(e) => r == Err::<(), EscrowError>(e) && after == before && rec_after == rec_before,
    }
}

/// The accounts of a new deal. Token accounts are named by their ledger slot.
#[derive(Clone, Copy, Debug)]
pub struct InitializeEscrow {
    pub initializer: Address,
    pub initializer_is_signer: bool,
    pub mint: Address,
    pub vault_account: usize,
    pub initializer_deposit_token_account: usize,
    pub initializer_receive_token_account: usize,
}

/// The accounts with which the initializer takes a deal back.
#[derive(Clone, Copy, Debug)]
pub struct CancelEscrow {
    pub initializer: Address,
    pub initializer_is_signer: bool,
    pub initializer_deposit_token_account: usize,
    pub vault_account: usize,
    pub vault_authority: Address,
}

/// The accounts with which a taker completes a deal.
#[derive(Clone, Copy, Debug)]
pub struct Exchange {
    pub taker: Address,
    pub taker_is_signer: bool,
    pub taker_deposit_token_account: usize,
    pub taker_receive_token_account: usize,
    pub initializer_deposit_token_account: usize,
    pub initializer_receive_token_account: usize,
    pub initializer: Address,
    pub vault_account: usize,
    pub vault_authority: Address,
}

impl InitializeEscrow {
    pub open spec fn pda_transfer(self) -> Transfer {
        Transfer {
            from: self.initializer_deposit_token_account,
            to: self.vault_account,
            authority: self.initializer,
        }
    }

    pub open spec fn vault_handover(self) -> SetAuthority {
        SetAuthority { account: self.vault_account, current_authority: self.initializer }
    }

    /// The deposit into the vault, signed by the initializer.
    pub fn as_transfer_to_pda_context(&self) -> (r: Transfer)
        ensures
            r == self.pda_transfer(),
    {
        Transfer {
            from: self.initializer_deposit_token_account,
            to: self.vault_account,
            authority: self.initializer,
        }
    }

    /// The handover of the vault from the initializer.
    pub fn as_set_authority_context(&self) -> (r: SetAuthority)
        ensures
            r == self.vault_handover(),
    {
        SetAuthority { account: self.vault_account, current_authority: self.initializer }
    }
}

impl CancelEscrow {
    pub open spec fn refund(self) -> Transfer {
        Transfer {
            from: self.vault_account,
            to: self.initializer_deposit_token_account,
            authority: self.vault_authority,
        }
    }

    pub open spec fn vault_close(self) -> CloseAccount {
        CloseAccount {
            account: self.vault_account,
            destination: self.initializer,
            authority: self.vault_authority,
        }
    }

    /// The refund from the vault, signed by the vault authority.
    pub fn as_transfer_to_initializer_context(&self) -> (r: Transfer)
        ensures
            r == self.refund(),
    {
        Transfer {
            from: self.vault_account,
            to: self.initializer_deposit_token_account,
            authority: self.vault_authority,
        }
    }

    /// The closing of the vault, its reserve going to the initializer.
    pub fn as_close_context(&self) -> (r: CloseAccount)
        ensures
            r == self.vault_close(),
    {
        CloseAccount {
            account: self.vault_account,
            destination: self.initializer,
            authority: self.vault_authority,
        }
    }
}

impl Exchange {
    pub open spec fn payment(self) -> Transfer {
        Transfer {
            from: self.taker_deposit_token_account,
            to: self.initializer_receive_token_account,
            authority: self.taker,
        }
    }

    pub open spec fn release(self) -> Transfer {
        Transfer {
            from: self.vault_account,
            to: self.taker_receive_token_account,
            authority: self.vault_authority,
        }
    }

    pub open spec fn vault_close(self) -> CloseAccount {
        CloseAccount {
            account: self.vault_account,
            destination: self.initializer,
            authority: self.vault_authority,
        }
    }

    /// The taker's payment into the initializer's receive account, signed by
    /// the taker.
    pub fn as_transfer_to_initializer_context(&self) -> (r: Transfer)
        ensures
            r == self.payment(),
    {
        Transfer {
            from: self.taker_deposit_token_account,
            to: self.initializer_receive_token_account,
            authority: self.taker,
        }
    }

    /// The release of the vault to the taker, signed by the vault authority.
    pub fn as_transfer_to_taker_context(&self) -> (r: Transfer)
        ensures
            r == self.release(),
    {
        Transfer {
            from: self.vault_account,
            to: self.taker_receive_token_account,
            authority: self.vault_authority,
        }
    }

    /// The closing of the vault, its reserve going to the initializer.
    pub fn as_close_context(&self) -> (r: CloseAccount)
        ensures
            r == self.vault_close(),
    {
        CloseAccount {
            account: self.vault_account,
            destination: self.initializer,
            authority: self.vault_authority,
        }
    }
}

/// The vault as Initialize creates it: owned by the initializer, empty.
pub open spec fn fresh_vault(s: Seq<TokenAccount>, ctx: InitializeEscrow) -> TokenAccount {
    TokenAccount {
        address: s[ctx.vault_account as int].address,
        mint: ctx.mint,
        authority: ctx.initializer,
        amount: 0,
        open: true,
    }
}

/// Initialize under the vault authority `auth`: record the terms, hand the
/// vault over to `auth`, and move the deposit into it.
pub open spec fn spec_initialize(
    auth: Address,
    s: Seq<TokenAccount>,
    rec: Option<EscrowAccount>,
    ctx: InitializeEscrow,
    initializer_amount: u64,
    taker_amount: u64,
) -> Outcome {
    let (vault, deposit, receive) = (
        ctx.vault_account as int,
        ctx.initializer_deposit_token_account as int,
        ctx.initializer_receive_token_account as int,
    );
    if !ctx.initializer_is_signer {
        Err(EscrowError::NotSigner)
    } else if rec is Some {
        Err(EscrowError::AccountInUse)
    } else if !(vault < s.len()) || !is_live(s, deposit) || !is_live(s, receive) {
        Err(EscrowError::AccountMissing)
    } else if s[vault].open {
        Err(EscrowError::AccountInUse)
    } else if s[deposit].amount < initializer_amount {
        Err(EscrowError::InsufficientBalance)
    } else {
        let s0 = s.update(vault, fresh_vault(s, ctx));
        match spec_set_authority(s0, ctx.vault_handover(), auth) {
            Err(e) => Err(EscrowError::Ledger(e)),
            Ok(s1) => match spec_transfer(s1, ctx.pda_transfer(), initializer_amount) {
                Err(e) => Err(EscrowError::Ledger(e)),
                Ok(s2) => Ok(
                    (
                        s2,
                        Some(
                            EscrowAccount {
                                initializer_key: ctx.initializer,
                                initializer_deposit_token_account: s[deposit].address,
                                initializer_receive_token_account: s[receive].address,
                                initializer_amount,
                                taker_amount,
                            },
                        ),
                    ),
                ),
            },
        }
    }
}

/// Opens a deal under the vault authority `vault_authority`.
pub fn initialize_escrow_with_authority(
    vault_authority: &Address,
    ledger: &mut Ledger,
    escrow_account: &mut Option<EscrowAccount>,
    ctx: &InitializeEscrow,
    initializer_amount: u64,
    taker_amount: u64,
) -> (r: Result<(), EscrowError>)
    ensures
        escrow_outcome(
            spec_initialize(
                *vault_authority,
                old(ledger)@,
                *old(escrow_account),
                *ctx,
                initializer_amount,
                taker_amount,
            ),
            r,
            old(ledger)@,
            *old(escrow_account),
            final(ledger)@,
            *final(escrow_account),
        ),
{
    if !ctx.initializer_is_signer {
        return Err(EscrowError::NotSigner);
    }
    if escrow_account.is_some() {
        return Err(EscrowError::AccountInUse);
    }
    if !(ctx.vault_account < ledger.accounts.len()) || !ledger.is_live(
        ctx.initializer_deposit_token_account,
    ) || !ledger.is_live(ctx.initializer_receive_token_account) {
        return Err(EscrowError::AccountMissing);
    }
    let old_vault = ledger.accounts[ctx.vault_account];
    if old_vault.open {
        return Err(EscrowError::AccountInUse);
    }
    let deposit = ledger.accounts[ctx.initializer_deposit_token_account];
    let receive = ledger.accounts[ctx.initializer_receive_token_account];
    if deposit.amount < initializer_amount {
        return Err(EscrowError::InsufficientBalance);
    }
    let mut work = ledger.snapshot();
    work.accounts.set(
        ctx.vault_account,
        TokenAccount {
            address: old_vault.address,
            mint: ctx.mint,
            authority: ctx.initializer,
            amount: 0,
            open: true,
        },
    );
    match work.set_authority(&ctx.as_set_authority_context(), vault_authority) {
        Err(e) => return Err(EscrowError::Ledger(e)),
        Ok(()) => {},
    }
    match work.transfer(&ctx.as_transfer_to_pda_context(), initializer_amount) {
        Err(e) => return Err(EscrowError::Ledger(e)),
        Ok(()) => {},
    }
    *ledger = work;
    *escrow_account = Some(
        EscrowAccount {
            initializer_key: ctx.initializer,
            initializer_deposit_token_account: deposit.address,
            initializer_receive_token_account: receive.address,
            initializer_amount,
            taker_amount,
        },
    );
    Ok(())
}

/// Opens a deal of the program `program_id`: derives the vault authority,
/// then proceeds as `initialize_escrow_with_authority`.
pub fn initialize_escrow(
    program_id: &Address,
    ledger: &mut Ledger,
    escrow_account: &mut Option<EscrowAccount>,
    ctx: &InitializeEscrow,
    initializer_amount: u64,
    taker_amount: u64,
) -> (r: Result<(), EscrowError>)
    ensures
        escrow_outcome(
            match vault_authority_of(*program_id) {
                None => Err(EscrowError::AuthorityUnavailable),
                Some(auth) => spec_initialize(
                    auth,
                    old(ledger)@,
                    *old(escrow_account),
                    *ctx,
                    initializer_amount,
                    taker_amount,
                ),
            },
            r,
            old(ledger)@,
            *old(escrow_account),
            final(ledger)@,
            *final(escrow_account),
        ),
{
    match find_vault_authority(program_id) {
        None => Err(EscrowError::AuthorityUnavailable),
        Some((auth, _)) => initialize_escrow_with_authority(
            &auth,
            ledger,
            escrow_account,
            ctx,
            initializer_amount,
            taker_amount,
        ),
    }
}

/// Cancel under the vault authority `auth`: refund the vault to the
/// initializer's deposit account, close the vault and the record.
pub open spec fn spec_cancel(
    auth: Address,
    s: Seq<TokenAccount>,
    rec: Option<EscrowAccount>,
    ctx: CancelEscrow,
) -> Outcome {
    let (deposit, vault) = (ctx.initializer_deposit_token_account as int, ctx.vault_account as int);
    match rec {
        None => Err(EscrowError::RecordMissing),
        Some(deal) => if deal.initializer_key != ctx.initializer {
            Err(EscrowError::IdentityMismatch)
        } else if !ctx.initializer_is_signer {
            Err(EscrowError::NotSigner)
        } else if !is_live(s, deposit) || !is_live(s, vault) {
            Err(EscrowError::AccountMissing)
        } else if deposit == vault {
            Err(EscrowError::DuplicateAccount)
        } else if deal.initializer_deposit_token_account != s[deposit].address {
            Err(EscrowError::AccountMismatch)
        } else if ctx.vault_authority != auth {
            Err(EscrowError::VaultAuthorityMismatch)
        } else if s[vault].amount != deal.initializer_amount {
            Err(EscrowError::IntegrityFault)
        } else {
            match spec_transfer(s, ctx.refund(), deal.initializer_amount) {
                Err(e) => Err(EscrowError::Ledger(e)),
                Ok(s1) => match spec_close_account(s1, ctx.vault_close()) {
                    Err(e) => Err(EscrowError::Ledger(e)),
                    Ok(s2) => Ok((s2, None)),
                },
            }
        },
    }
}

/// Whether the five token accounts of an exchange are pairwise distinct.
pub open spec fn exchange_accounts_distinct(ctx: Exchange) -> bool {
    let (td, tr, id, ir, v) = (
        ctx.taker_deposit_token_account,
        ctx.taker_receive_token_account,
        ctx.initializer_deposit_token_account,
        ctx.initializer_receive_token_account,
        ctx.vault_account,
    );
    td != tr && td != id && td != ir && td != v && tr != id && tr != ir && tr != v && id != ir
        && id != v && ir != v
}

/// Exchange under the vault authority `auth`: the taker pays the
/// initializer's receive account, the vault is released to the taker's
/// receive account, then the vault and the record are closed.
pub open spec fn spec_exchange(
    auth: Address,
    s: Seq<TokenAccount>,
    rec: Option<EscrowAccount>,
    ctx: Exchange,
) -> Outcome {
    let (td, tr, id, ir, vault) = (
        ctx.taker_deposit_token_account as int,
        ctx.taker_receive_token_account as int,
        ctx.initializer_deposit_token_account as int,
        ctx.initializer_receive_token_account as int,
        ctx.vault_account as int,
    );
    match rec {
        None => Err(EscrowError::RecordMissing),
        Some(deal) => if !is_live(s, td) {
            Err(EscrowError::AccountMissing)
        } else if s[td].amount < deal.taker_amount {
            Err(EscrowError::InsufficientBalance)
        } else if !ctx.taker_is_signer {
            Err(EscrowError::NotSigner)
        } else if !is_live(s, tr) || !is_live(s, id) || !is_live(s, ir) || !is_live(s, vault) {
            Err(EscrowError::AccountMissing)
        } else if !exchange_accounts_distinct(ctx) {
            Err(EscrowError::DuplicateAccount)
        } else if deal.initializer_deposit_token_account != s[id].address
            || deal.initializer_receive_token_account != s[ir].address {
            Err(EscrowError::AccountMismatch)
        } else if deal.initializer_key != ctx.initializer {
            Err(EscrowError::IdentityMismatch)
        } else if ctx.vault_authority != auth {
            Err(EscrowError::VaultAuthorityMismatch)
        } else if s[vault].amount != deal.initializer_amount {
            Err(EscrowError::IntegrityFault)
        } else {
            match spec_transfer(s, ctx.payment(), deal.taker_amount) {
                Err(e) => Err(EscrowError::Ledger(e)),
                Ok(s1) => match spec_transfer(s1, ctx.release(), deal.initializer_amount) {
                    Err(e) => Err(EscrowError::Ledger(e)),
                    Ok(s2) => match spec_close_account(s2, ctx.vault_close()) {
                        Err(e) => Err(EscrowError::Ledger(e)),
                        Ok(s3) => Ok((s3, None)),
                    },
                },
            }
        },
    }
}

/// Takes a deal back under the vault authority `vault_authority`.
pub fn cancel_escrow_with_authority(
    vault_authority: &Address,
    ledger: &mut Ledger,
    escrow_account: &mut Option<EscrowAccount>,
    ctx: &CancelEscrow,
) -> (r: Result<(), EscrowError>)
    ensures
        escrow_outcome(
            spec_cancel(*vault_authority, old(ledger)@, *old(escrow_account), *ctx),
            r,
            old(ledger)@,
            *old(escrow_account),
            final(ledger)@,
            *final(escrow_account),
        ),
{
    let deal = match *escrow_account {
        None => return Err(EscrowError::RecordMissing),
        Some(deal) => deal,
    };
    if !deal.initializer_key.same_as(&ctx.initializer) {
        return Err(EscrowError::IdentityMismatch);
    }
    if !ctx.initializer_is_signer {
        return Err(EscrowError::NotSigner);
    }
    if !ledger.is_live(ctx.initializer_deposit_token_account) || !ledger.is_live(
        ctx.vault_account,
    ) {
        return Err(EscrowError::AccountMissing);
    }
    if ctx.initializer_deposit_token_account == ctx.vault_account {
        return Err(EscrowError::DuplicateAccount);
    }
    let deposit = ledger.accounts[ctx.initializer_deposit_token_account];
    let vault = ledger.accounts[ctx.vault_account];
    if !deal.initializer_deposit_token_account.same_as(&deposit.address) {
        return Err(EscrowError::AccountMismatch);
    }
    if !ctx.vault_authority.same_as(vault_authority) {
        return Err(EscrowError::VaultAuthorityMismatch);
    }
    if vault.amount != deal.initializer_amount {
        return Err(EscrowError::IntegrityFault);
    }
    let mut work = ledger.snapshot();
    match work.transfer(&ctx.as_transfer_to_initializer_context(), deal.initializer_amount) {
        Err(e) => return Err(EscrowError::Ledger(e)),
        Ok(()) => {},
    }
    match work.close_account(&ctx.as_close_context()) {
        Err(e) => return Err(EscrowError::Ledger(e)),
        Ok(()) => {},
    }
    *ledger = work;
    *escrow_account = None;
    Ok(())
}

/// Takes a deal of the program `program_id` back: derives the vault
/// authority, then proceeds as `cancel_escrow_with_authority`.
pub fn cancel_escrow(
    program_id: &Address,
    ledger: &mut Ledger,
    escrow_account: &mut Option<EscrowAccount>,
    ctx: &CancelEscrow,
) -> (r: Result<(), EscrowError>)
    ensures
        escrow_outcome(
            match vault_authority_of(*program_id) {
                None => Err(EscrowError::AuthorityUnavailable),
                Some(auth) => spec_cancel(auth, old(ledger)@, *old(escrow_account), *ctx),
            },
            r,
            old(ledger)@,
            *old(escrow_account),
            final(ledger)@,
            *final(escrow_account),
        ),
{
    match find_vault_authority(program_id) {
        None => Err(EscrowError::AuthorityUnavailable),
        Some((auth, _)) => cancel_escrow_with_authority(&auth, ledger, escrow_account, ctx),
    }
}

/// Completes a deal under the vault authority `vault_authority`.
pub fn exchange_with_authority(
    vault_authority: &Address,
    ledger: &mut Ledger,
    escrow_account: &mut Option<EscrowAccount>,
    ctx: &Exchange,
) -> (r: Result<(), EscrowError>)
    ensures
        escrow_outcome(
            spec_exchange(*vault_authority, old(ledger)@, *old(escrow_account), *ctx),
            r,
            old(ledger)@,
            *old(escrow_account),
            final(ledger)@,
            *final(escrow_account),
        ),
{
    let deal = match *escrow_account {
        None => return Err(EscrowError::RecordMissing),
        Some(deal) => deal,
    };
    if !ledger.is_live(ctx.taker_deposit_token_account) {
        return Err(EscrowError::AccountMissing);
    }
    if ledger.accounts[ctx.taker_deposit_token_account].amount < deal.taker_amount {
        return Err(EscrowError::InsufficientBalance);
    }
    if !ctx.taker_is_signer {
        return Err(EscrowError::NotSigner);
    }
    if !ledger.is_live(ctx.taker_receive_token_account) || !ledger.is_live(
        ctx.initializer_deposit_token_account,
    ) || !ledger.is_live(ctx.initializer_receive_token_account) || !ledger.is_live(
        ctx.vault_account,
    ) {
        return Err(EscrowError::AccountMissing);
    }
    let (td, tr, id, ir, v) = (
        ctx.taker_deposit_token_account,
        ctx.taker_receive_token_account,
        ctx.initializer_deposit_token_account,
        ctx.initializer_receive_token_account,
        ctx.vault_account,
    );
    if td == tr || td == id || td == ir || td == v || tr == id || tr == ir || tr == v || id == ir
        || id == v || ir == v {
        return Err(EscrowError::DuplicateAccount);
    }
    if !deal.initializer_deposit_token_account.same_as(&ledger.accounts[id].address)
        || !deal.initializer_receive_token_account.same_as(&ledger.accounts[ir].address) {
        return Err(EscrowError::AccountMismatch);
    }
    if !deal.initializer_key.same_as(&ctx.initializer) {
        return Err(EscrowError::IdentityMismatch);
    }
    if !ctx.vault_authority.same_as(vault_authority) {
        return Err(EscrowError::VaultAuthorityMismatch);
    }
    if ledger.accounts[v].amount != deal.initializer_amount {
        return Err(EscrowError::IntegrityFault);
    }
    let mut work = ledger.snapshot();
    match work.transfer(&ctx.as_transfer_to_initializer_context(), deal.taker_amount) {
        Err(e) => return Err(EscrowError::Ledger(e)),
        Ok(()) => {},
    }
    match work.transfer(&ctx.as_transfer_to_taker_context(), deal.initializer_amount) {
        Err(e) => return Err(EscrowError::Ledger(e)),
        Ok(()) => {},
    }
    match work.close_account(&ctx.as_close_context()) {
        Err(e) => return Err(EscrowError::Ledger(e)),
        Ok(()) => {},
    }
    *ledger = work;
    *escrow_account = None;
    Ok(())
}

/// Completes a deal of the program `program_id`: derives the vault
/// authority, then proceeds as `exchange_with_authority`.
pub fn exchange(
    program_id: &Address,
    ledger: &mut Ledger,
    escrow_account: &mut Option<EscrowAccount>,
    ctx: &Exchange,
) -> (r: Result<(), EscrowError>)
    ensures
        escrow_outcome(
            match vault_authority_of(*program_id) {
                None => Err(EscrowError::AuthorityUnavailable),
                Some(auth) => spec_exchange(auth, old(ledger)@, *old(escrow_account), *ctx),
            },
            r,
            old(ledger)@,
            *old(escrow_account),
            final(ledger)@,
            *final(escrow_account),
        ),
{
    match find_vault_authority(program_id) {
        None => Err(EscrowError::AuthorityUnavailable),
        Some((auth, _)) => exchange_with_authority(&auth, ledger, escrow_account, ctx),
    }
}

} // verus!
