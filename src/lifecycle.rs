use vstd::prelude::*;
use crate::address::Address;
use crate::escrow::{
    exchange_accounts_distinct, spec_cancel, spec_exchange, spec_initialize, CancelEscrow,
    EscrowAccount, EscrowError, Exchange, InitializeEscrow,
};
use crate::ledger::{is_live, spec_transfer, TokenAccount};

verus! {

/// A well-formed Initialize succeeds: the vault then holds exactly the
/// deposit, is owned by the vault authority, and the record holds the terms
/// as given.
pub proof fn lemma_initialize_locks_deposit(
    auth: Address,
    s: Seq<TokenAccount>,
    ctx: InitializeEscrow,
    initializer_amount: u64,
    taker_amount: u64,
)
    requires
        ctx.initializer_is_signer,
        ctx.vault_account < s.len(),
        !s[ctx.vault_account as int].open,
        is_live(s, ctx.initializer_deposit_token_account as int),
        is_live(s, ctx.initializer_receive_token_account as int),
        s[ctx.initializer_deposit_token_account as int].authority == ctx.initializer,
        s[ctx.initializer_deposit_token_account as int].mint == ctx.mint,
        s[ctx.initializer_deposit_token_account as int].amount >= initializer_amount,
    ensures
        match spec_initialize(auth, s, None, ctx, initializer_amount, taker_amount) {
            Ok((s2, rec)) => {
                &&& s2.len() == s.len()
                &&& s2[ctx.vault_account as int].open
                &&& s2[ctx.vault_account as int].amount == initializer_amount
                &&& s2[ctx.vault_account as int].authority == auth
                &&& s2[ctx.initializer_deposit_token_account as int].amount == s[ctx.initializer_deposit_token_account as int].amount
                    - initializer_amount
                &&& rec == Some(
                    EscrowAccount {
                        initializer_key: ctx.initializer,
                        initializer_deposit_token_account: s[ctx.initializer_deposit_token_account as int].address,
                        initializer_receive_token_account: s[ctx.initializer_receive_token_account as int].address,
                        initializer_amount,
                        taker_amount,
                    },
                )
            },
            Err(_) => false,
        },
{
}

/// A deal is consumed by its first successful Cancel or Exchange: after it,
/// every further Cancel or Exchange on the record fails for want of a record.
pub proof fn lemma_deal_consumed_once(
    auth: Address,
    s: Seq<TokenAccount>,
    rec: Option<EscrowAccount>,
    cancel: CancelEscrow,
    exchange: Exchange,
    next_cancel: CancelEscrow,
    next_exchange: Exchange,
)
    ensures
        spec_cancel(auth, s, rec, cancel) is Ok ==> {
            let (s1, rec1) = spec_cancel(auth, s, rec, cancel)->Ok_0;
            &&& rec1 is None
            &&& spec_cancel(auth, s1, rec1, next_cancel) == Err::<
                (Seq<TokenAccount>, Option<EscrowAccount>),
                EscrowError,
            >(EscrowError::RecordMissing)
            &&& spec_exchange(auth, s1, rec1, next_exchange) == Err::<
                (Seq<TokenAccount>, Option<EscrowAccount>),
                EscrowError,
            >(EscrowError::RecordMissing)
        },
        spec_exchange(auth, s, rec, exchange) is Ok ==> {
            let (s1, rec1) = spec_exchange(auth, s, rec, exchange)->Ok_0;
            &&& rec1 is None
            &&& spec_cancel(auth, s1, rec1, next_cancel) == Err::<
                (Seq<TokenAccount>, Option<EscrowAccount>),
                EscrowError,
            >(EscrowError::RecordMissing)
            &&& spec_exchange(auth, s1, rec1, next_exchange) == Err::<
                (Seq<TokenAccount>, Option<EscrowAccount>),
                EscrowError,
            >(EscrowError::RecordMissing)
        },
{
}

/// A successful Cancel credits the initializer's deposit account with exactly
/// the deposit, empties and closes the vault, and leaves every other account
/// as it was.
pub proof fn lemma_cancel_refunds_only_initializer(
    auth: Address,
    s: Seq<TokenAccount>,
    deal: EscrowAccount,
    ctx: CancelEscrow,
)
    requires
        spec_cancel(auth, s, Some(deal), ctx) is Ok,
    ensures
        ({
            let (s1, rec1) = spec_cancel(auth, s, Some(deal), ctx)->Ok_0;
            let (deposit, vault) = (
                ctx.initializer_deposit_token_account as int,
                ctx.vault_account as int,
            );
            &&& rec1 is None
            &&& s1.len() == s.len()
            &&& s1[deposit].amount == s[deposit].amount + deal.initializer_amount
            &&& s1[vault].amount == 0
            &&& !s1[vault].open
            &&& forall|j: int| 0 <= j < s.len() && j != deposit && j != vault ==> s1[j] == s[j]
        }),
{
}

/// A successful Exchange pays the initializer's receive account the taker's
/// amount, gives the taker's receive account the deposit, empties and closes
/// the vault, consumes the record, and leaves every other account (the
/// initializer's deposit account among them) as it was.
pub proof fn lemma_exchange_swaps(
    auth: Address,
    s: Seq<TokenAccount>,
    deal: EscrowAccount,
    ctx: Exchange,
)
    requires
        spec_exchange(auth, s, Some(deal), ctx) is Ok,
    ensures
        ({
            let (s1, rec1) = spec_exchange(auth, s, Some(deal), ctx)->Ok_0;
            let (td, tr, id, ir, vault) = (
                ctx.taker_deposit_token_account as int,
                ctx.taker_receive_token_account as int,
                ctx.initializer_deposit_token_account as int,
                ctx.initializer_receive_token_account as int,
                ctx.vault_account as int,
            );
            &&& rec1 is None
            &&& s1.len() == s.len()
            &&& s1[ir].amount == s[ir].amount + deal.taker_amount
            &&& s1[tr].amount == s[tr].amount + deal.initializer_amount
            &&& s1[td].amount == s[td].amount - deal.taker_amount
            &&& s1[id] == s[id]
            &&& s1[vault].amount == 0
            &&& !s1[vault].open
            &&& forall|j: int|
                0 <= j < s.len() && j != td && j != tr && j != ir && j != vault ==> s1[j] == s[j]
        }),
{
}

/// A Cancel by the deal's initializer, signed, with the deposit account bound
/// to the deal and the deal's vault (holding the deposit, owned by the vault
/// authority, of the deposit account's asset) succeeds, where the refund fits
/// in the deposit account.
pub proof fn lemma_cancel_succeeds(
    auth: Address,
    s: Seq<TokenAccount>,
    deal: EscrowAccount,
    ctx: CancelEscrow,
)
    requires
        ctx.initializer == deal.initializer_key,
        ctx.initializer_is_signer,
        ctx.vault_authority == auth,
        is_live(s, ctx.initializer_deposit_token_account as int),
        is_live(s, ctx.vault_account as int),
        ctx.initializer_deposit_token_account != ctx.vault_account,
        s[ctx.initializer_deposit_token_account as int].address
            == deal.initializer_deposit_token_account,
        s[ctx.vault_account as int].amount == deal.initializer_amount,
        s[ctx.vault_account as int].authority == auth,
        s[ctx.vault_account as int].mint == s[ctx.initializer_deposit_token_account as int].mint,
        s[ctx.initializer_deposit_token_account as int].amount + deal.initializer_amount
            <= u64::MAX,
    ensures
        spec_cancel(auth, s, Some(deal), ctx) is Ok,
{
}

/// An Exchange signed by a taker who owns a deposit account holding at least
/// the taker's amount, on five distinct accounts bound to the deal, with the
/// deal's vault and matching assets on both legs, succeeds, where both
/// credits fit.
pub proof fn lemma_exchange_succeeds(
    auth: Address,
    s: Seq<TokenAccount>,
    deal: EscrowAccount,
    ctx: Exchange,
)
    requires
        ctx.taker_is_signer,
        ctx.initializer == deal.initializer_key,
        ctx.vault_authority == auth,
        exchange_accounts_distinct(ctx),
        is_live(s, ctx.taker_deposit_token_account as int),
        is_live(s, ctx.taker_receive_token_account as int),
        is_live(s, ctx.initializer_deposit_token_account as int),
        is_live(s, ctx.initializer_receive_token_account as int),
        is_live(s, ctx.vault_account as int),
        s[ctx.initializer_deposit_token_account as int].address
            == deal.initializer_deposit_token_account,
        s[ctx.initializer_receive_token_account as int].address
            == deal.initializer_receive_token_account,
        s[ctx.taker_deposit_token_account as int].authority == ctx.taker,
        s[ctx.taker_deposit_token_account as int].amount >= deal.taker_amount,
        s[ctx.taker_deposit_token_account as int].mint
            == s[ctx.initializer_receive_token_account as int].mint,
        s[ctx.vault_account as int].amount == deal.initializer_amount,
        s[ctx.vault_account as int].authority == auth,
        s[ctx.vault_account as int].mint == s[ctx.taker_receive_token_account as int].mint,
        s[ctx.initializer_receive_token_account as int].amount + deal.taker_amount <= u64::MAX,
        s[ctx.taker_receive_token_account as int].amount + deal.initializer_amount <= u64::MAX,
    ensures
        spec_exchange(auth, s, Some(deal), ctx) is Ok,
{
}

/// Where the taker's payment would be refused, the Exchange fails as a whole,
/// so the vault is never released.
pub proof fn lemma_no_release_without_payment(
    auth: Address,
    s: Seq<TokenAccount>,
    deal: EscrowAccount,
    ctx: Exchange,
)
    requires
        spec_transfer(s, ctx.payment(), deal.taker_amount) is Err,
    ensures
        spec_exchange(auth, s, Some(deal), ctx) is Err,
{
}

/// A Cancel by anyone but the deal's initializer fails with an identity
/// mismatch (and so changes nothing).
pub proof fn lemma_cancel_by_stranger_fails(
    auth: Address,
    s: Seq<TokenAccount>,
    deal: EscrowAccount,
    ctx: CancelEscrow,
)
    requires
        ctx.initializer != deal.initializer_key,
    ensures
        spec_cancel(auth, s, Some(deal), ctx) == Err::<
            (Seq<TokenAccount>, Option<EscrowAccount>),
            EscrowError,
        >(EscrowError::IdentityMismatch),
{
}

/// An Exchange whose taker deposit account holds less than the taker's
/// amount fails with insufficient balance before any transfer.
pub proof fn lemma_underfunded_exchange_fails(
    auth: Address,
    s: Seq<TokenAccount>,
    deal: EscrowAccount,
    ctx: Exchange,
)
    requires
        is_live(s, ctx.taker_deposit_token_account as int),
        s[ctx.taker_deposit_token_account as int].amount < deal.taker_amount,
    ensures
        spec_exchange(auth, s, Some(deal), ctx) == Err::<
            (Seq<TokenAccount>, Option<EscrowAccount>),
            EscrowError,
        >(EscrowError::InsufficientBalance),
{
}

} // verus!
