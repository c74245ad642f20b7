use anchor_lang::prelude::Pubkey;
use escrow_program::address::{escrow_seed_bytes, find_vault_authority, Address};
use escrow_program::escrow::{
    cancel_escrow, cancel_escrow_with_authority, exchange, exchange_with_authority,
    initialize_escrow, initialize_escrow_with_authority, CancelEscrow, EscrowAccount, EscrowError,
    Exchange, InitializeEscrow,
};
use escrow_program::ledger::{Ledger, LedgerError, TokenAccount};

fn addr(n: u8) -> Address {
    Address::new([n; 32])
}

const PROGRAM: u8 = 9;
const ALICE: u8 = 1;
const BOB: u8 = 2;
const MALLORY: u8 = 3;
const MINT_A: u8 = 10;
const MINT_B: u8 = 11;

fn open_account(ledger: &mut Ledger, address: u8, mint: u8, owner: u8, amount: u64) -> usize {
    ledger.push(TokenAccount {
        address: addr(address),
        mint: addr(mint),
        authority: addr(owner),
        amount,
        open: true,
    })
}

fn empty_slot(ledger: &mut Ledger, address: u8) -> usize {
    ledger.push(TokenAccount {
        address: addr(address),
        mint: addr(0),
        authority: addr(0),
        amount: 0,
        open: false,
    })
}

/// Slots of a two-party market: Alice holds asset A, Bob holds asset B.
struct Market {
    ledger: Ledger,
    alice_a: usize,
    alice_b: usize,
    bob_a: usize,
    bob_b: usize,
    vault: usize,
}

fn market(alice_a: u64, bob_b: u64) -> Market {
    let mut ledger = Ledger::new();
    let a_a = open_account(&mut ledger, 20, MINT_A, ALICE, alice_a);
    let a_b = open_account(&mut ledger, 21, MINT_B, ALICE, 0);
    let b_a = open_account(&mut ledger, 22, MINT_A, BOB, 0);
    let b_b = open_account(&mut ledger, 23, MINT_B, BOB, bob_b);
    let vault = empty_slot(&mut ledger, 24);
    Market { ledger, alice_a: a_a, alice_b: a_b, bob_a: b_a, bob_b: b_b, vault }
}

fn amount(ledger: &Ledger, i: usize) -> u64 {
    ledger.get(i).unwrap().amount
}

fn init_ctx(m: &Market) -> InitializeEscrow {
    InitializeEscrow {
        initializer: addr(ALICE),
        initializer_is_signer: true,
        mint: addr(MINT_A),
        vault_account: m.vault,
        initializer_deposit_token_account: m.alice_a,
        initializer_receive_token_account: m.alice_b,
    }
}

fn authority() -> Address {
    find_vault_authority(&addr(PROGRAM)).unwrap().0
}

fn cancel_ctx(m: &Market, who: u8) -> CancelEscrow {
    CancelEscrow {
        initializer: addr(who),
        initializer_is_signer: true,
        initializer_deposit_token_account: m.alice_a,
        vault_account: m.vault,
        vault_authority: authority(),
    }
}

fn exchange_ctx(m: &Market) -> Exchange {
    Exchange {
        taker: addr(BOB),
        taker_is_signer: true,
        taker_deposit_token_account: m.bob_b,
        taker_receive_token_account: m.bob_a,
        initializer_deposit_token_account: m.alice_a,
        initializer_receive_token_account: m.alice_b,
        initializer: addr(ALICE),
        vault_account: m.vault,
        vault_authority: authority(),
    }
}

fn opened(alice_a: u64, bob_b: u64, give: u64, want: u64) -> (Market, Option<EscrowAccount>) {
    let mut m = market(alice_a, bob_b);
    let mut record = None;
    let ctx = init_ctx(&m);
    assert_eq!(initialize_escrow(&addr(PROGRAM), &mut m.ledger, &mut record, &ctx, give, want), Ok(()));
    (m, record)
}

#[test]
fn vault_authority_is_derived_and_stable() {
    let a = find_vault_authority(&addr(PROGRAM)).unwrap().0;
    let b = find_vault_authority(&addr(PROGRAM)).unwrap().0;
    let other = find_vault_authority(&addr(PROGRAM + 1)).unwrap().0;
    assert!(a.same_as(&b));
    assert!(!a.same_as(&addr(PROGRAM)));
    assert!(!a.same_as(&other));
}

#[test]
fn vault_authority_matches_its_bump() {
    let (auth, bump) = find_vault_authority(&addr(PROGRAM)).unwrap();
    let seed = escrow_seed_bytes();
    assert_eq!(seed, b"escrow-pda-seed".to_vec());
    let program = Pubkey::new_from_array([PROGRAM; 32]);
    let derived = Pubkey::create_program_address(&[seed.as_slice(), &[bump]], &program).unwrap();
    assert_eq!(derived.to_bytes(), auth.bytes);
}

#[test]
fn initialize_locks_deposit_in_vault() {
    let (m, record) = opened(150, 0, 100, 50);
    let vault = m.ledger.get(m.vault).unwrap();
    assert!(vault.open);
    assert_eq!(vault.amount, 100);
    assert!(vault.authority.same_as(&authority()));
    assert!(vault.mint.same_as(&addr(MINT_A)));
    assert_eq!(amount(&m.ledger, m.alice_a), 50);
    let deal = record.unwrap();
    assert!(deal.initializer_key.same_as(&addr(ALICE)));
    assert!(deal.initializer_deposit_token_account.same_as(&addr(20)));
    assert!(deal.initializer_receive_token_account.same_as(&addr(21)));
    assert_eq!(deal.initializer_amount, 100);
    assert_eq!(deal.taker_amount, 50);
}

#[test]
fn initialize_rejects_bad_calls() {
    let mut m = market(100, 0);
    let mut record = None;
    let auth = authority();

    let mut ctx = init_ctx(&m);
    ctx.initializer_is_signer = false;
    assert_eq!(
        initialize_escrow_with_authority(&auth, &mut m.ledger, &mut record, &ctx, 10, 5),
        Err(EscrowError::NotSigner)
    );

    let ctx = init_ctx(&m);
    assert_eq!(
        initialize_escrow_with_authority(&auth, &mut m.ledger, &mut record, &ctx, 101, 5),
        Err(EscrowError::InsufficientBalance)
    );

    let mut ctx = init_ctx(&m);
    ctx.vault_account = m.bob_a;
    assert_eq!(
        initialize_escrow_with_authority(&auth, &mut m.ledger, &mut record, &ctx, 10, 5),
        Err(EscrowError::AccountInUse)
    );

    let mut ctx = init_ctx(&m);
    ctx.initializer_deposit_token_account = m.vault;
    assert_eq!(
        initialize_escrow_with_authority(&auth, &mut m.ledger, &mut record, &ctx, 10, 5),
        Err(EscrowError::AccountMissing)
    );

    let mut ctx = init_ctx(&m);
    ctx.initializer_deposit_token_account = m.bob_a;
    assert_eq!(
        initialize_escrow_with_authority(&auth, &mut m.ledger, &mut record, &ctx, 0, 5),
        Err(EscrowError::Ledger(LedgerError::AuthorityMismatch))
    );
    // Alice's B account cannot fund a vault of asset A.
    let mut ctx = init_ctx(&m);
    ctx.initializer_deposit_token_account = m.alice_b;
    assert_eq!(
        initialize_escrow_with_authority(&auth, &mut m.ledger, &mut record, &ctx, 0, 5),
        Err(EscrowError::Ledger(LedgerError::MintMismatch))
    );
    assert!(!m.ledger.get(m.vault).unwrap().open);
    assert!(record.is_none());
    assert_eq!(amount(&m.ledger, m.alice_a), 100);
}

#[test]
fn initialize_needs_fresh_record() {
    let (mut m, mut record) = opened(100, 0, 40, 5);
    let mut ctx = init_ctx(&m);
    ctx.vault_account = empty_slot(&mut m.ledger, 30);
    assert_eq!(
        initialize_escrow(&addr(PROGRAM), &mut m.ledger, &mut record, &ctx, 10, 5),
        Err(EscrowError::AccountInUse)
    );
    assert_eq!(amount(&m.ledger, m.alice_a), 60);
}

#[test]
fn cancel_refunds_initializer_only() {
    let (mut m, mut record) = opened(100, 70, 100, 50);
    let ctx = cancel_ctx(&m, ALICE);
    assert_eq!(cancel_escrow(&addr(PROGRAM), &mut m.ledger, &mut record, &ctx), Ok(()));
    assert!(record.is_none());
    assert_eq!(amount(&m.ledger, m.alice_a), 100);
    assert_eq!(amount(&m.ledger, m.alice_b), 0);
    assert_eq!(amount(&m.ledger, m.bob_a), 0);
    assert_eq!(amount(&m.ledger, m.bob_b), 70);
    let vault = m.ledger.get(m.vault).unwrap();
    assert_eq!(vault.amount, 0);
    assert!(!vault.open);
}

#[test]
fn deal_is_consumed_by_cancel() {
    let (mut m, mut record) = opened(100, 70, 100, 50);
    let ctx = cancel_ctx(&m, ALICE);
    assert_eq!(cancel_escrow(&addr(PROGRAM), &mut m.ledger, &mut record, &ctx), Ok(()));
    assert_eq!(
        cancel_escrow(&addr(PROGRAM), &mut m.ledger, &mut record, &ctx),
        Err(EscrowError::RecordMissing)
    );
    let ex = exchange_ctx(&m);
    assert_eq!(
        exchange(&addr(PROGRAM), &mut m.ledger, &mut record, &ex),
        Err(EscrowError::RecordMissing)
    );
    assert_eq!(amount(&m.ledger, m.alice_a), 100);
    assert_eq!(amount(&m.ledger, m.bob_b), 70);
}

#[test]
fn deal_is_consumed_by_exchange() {
    let (mut m, mut record) = opened(100, 70, 100, 50);
    let ex = exchange_ctx(&m);
    assert_eq!(exchange(&addr(PROGRAM), &mut m.ledger, &mut record, &ex), Ok(()));
    assert_eq!(
        exchange(&addr(PROGRAM), &mut m.ledger, &mut record, &ex),
        Err(EscrowError::RecordMissing)
    );
    let ctx = cancel_ctx(&m, ALICE);
    assert_eq!(
        cancel_escrow(&addr(PROGRAM), &mut m.ledger, &mut record, &ctx),
        Err(EscrowError::RecordMissing)
    );
    assert_eq!(amount(&m.ledger, m.bob_a), 100);
}

#[test]
fn exchange_swaps_both_legs() {
    let (mut m, mut record) = opened(130, 80, 100, 50);
    let ex = exchange_ctx(&m);
    assert_eq!(exchange(&addr(PROGRAM), &mut m.ledger, &mut record, &ex), Ok(()));
    assert!(record.is_none());
    assert_eq!(amount(&m.ledger, m.alice_a), 30);
    assert_eq!(amount(&m.ledger, m.alice_b), 50);
    assert_eq!(amount(&m.ledger, m.bob_a), 100);
    assert_eq!(amount(&m.ledger, m.bob_b), 30);
    let vault = m.ledger.get(m.vault).unwrap();
    assert_eq!(vault.amount, 0);
    assert!(!vault.open);
}

#[test]
fn concrete_swap_of_hundred_for_fifty() {
    // Alice locks 100 of A asking for 50 of B; Bob pays with 50 of B.
    let (mut m, mut record) = opened(100, 50, 100, 50);
    assert_eq!(amount(&m.ledger, m.alice_a), 0);
    let ex = exchange_ctx(&m);
    assert_eq!(exchange(&addr(PROGRAM), &mut m.ledger, &mut record, &ex), Ok(()));
    // The initializer's A account is untouched; the 50 of B reach its B account.
    assert_eq!(amount(&m.ledger, m.alice_a), 0);
    assert_eq!(amount(&m.ledger, m.alice_b), 50);
    assert_eq!(amount(&m.ledger, m.bob_b), 0);
    assert_eq!(amount(&m.ledger, m.bob_a), 100);
    let vault = m.ledger.get(m.vault).unwrap();
    assert_eq!(vault.amount, 0);
    assert!(!vault.open);
    assert!(record.is_none());
}

#[test]
fn cancel_by_stranger_fails() {
    let (mut m, mut record) = opened(100, 70, 100, 50);
    let ctx = cancel_ctx(&m, MALLORY);
    assert_eq!(
        cancel_escrow(&addr(PROGRAM), &mut m.ledger, &mut record, &ctx),
        Err(EscrowError::IdentityMismatch)
    );
    assert!(record.is_some());
    assert_eq!(amount(&m.ledger, m.vault), 100);
    assert_eq!(amount(&m.ledger, m.alice_a), 0);
    assert_eq!(amount(&m.ledger, m.bob_b), 70);
}

#[test]
fn underfunded_exchange_fails() {
    let (mut m, mut record) = opened(100, 49, 100, 50);
    let ex = exchange_ctx(&m);
    assert_eq!(
        exchange(&addr(PROGRAM), &mut m.ledger, &mut record, &ex),
        Err(EscrowError::InsufficientBalance)
    );
    assert!(record.is_some());
    assert_eq!(amount(&m.ledger, m.vault), 100);
    assert_eq!(amount(&m.ledger, m.bob_b), 49);
    assert_eq!(amount(&m.ledger, m.bob_a), 0);
    assert_eq!(amount(&m.ledger, m.alice_a), 0);
}

#[test]
fn exchange_payment_refused_releases_nothing() {
    let (mut m, mut record) = opened(100, 50, 100, 50);
    let mut ex = exchange_ctx(&m);
    // Bob's B account is paid from, but Mallory signs.
    ex.taker = addr(MALLORY);
    assert_eq!(
        exchange(&addr(PROGRAM), &mut m.ledger, &mut record, &ex),
        Err(EscrowError::Ledger(LedgerError::AuthorityMismatch))
    );
    assert_eq!(amount(&m.ledger, m.vault), 100);
    assert_eq!(amount(&m.ledger, m.bob_a), 0);
    assert_eq!(amount(&m.ledger, m.bob_b), 50);
    assert!(record.is_some());
}

#[test]
fn exchange_rejects_bad_bindings() {
    let (mut m, mut record) = opened(100, 50, 100, 50);
    let auth = authority();

    let mut ex = exchange_ctx(&m);
    ex.taker_is_signer = false;
    assert_eq!(
        exchange_with_authority(&auth, &mut m.ledger, &mut record, &ex),
        Err(EscrowError::NotSigner)
    );

    let mut ex = exchange_ctx(&m);
    ex.initializer_receive_token_account = m.bob_a;
    ex.taker_receive_token_account = m.alice_b;
    assert_eq!(
        exchange_with_authority(&auth, &mut m.ledger, &mut record, &ex),
        Err(EscrowError::AccountMismatch)
    );

    let mut ex = exchange_ctx(&m);
    ex.taker_receive_token_account = m.vault;
    assert_eq!(
        exchange_with_authority(&auth, &mut m.ledger, &mut record, &ex),
        Err(EscrowError::DuplicateAccount)
    );

    let mut ex = exchange_ctx(&m);
    ex.initializer = addr(MALLORY);
    assert_eq!(
        exchange_with_authority(&auth, &mut m.ledger, &mut record, &ex),
        Err(EscrowError::IdentityMismatch)
    );

    let mut ex = exchange_ctx(&m);
    ex.vault_authority = addr(MALLORY);
    assert_eq!(
        exchange_with_authority(&auth, &mut m.ledger, &mut record, &ex),
        Err(EscrowError::VaultAuthorityMismatch)
    );

    // Bob would receive asset A into his B account.
    let mut ex = exchange_ctx(&m);
    ex.taker_receive_token_account = m.bob_b;
    let bob_spare_b = open_account(&mut m.ledger, 25, MINT_B, BOB, 60);
    ex.taker_deposit_token_account = bob_spare_b;
    assert_eq!(
        exchange_with_authority(&auth, &mut m.ledger, &mut record, &ex),
        Err(EscrowError::Ledger(LedgerError::MintMismatch))
    );
    assert_eq!(amount(&m.ledger, bob_spare_b), 60);

    let mut ex = exchange_ctx(&m);
    ex.taker_receive_token_account = 99;
    assert_eq!(
        exchange_with_authority(&auth, &mut m.ledger, &mut record, &ex),
        Err(EscrowError::AccountMissing)
    );
    assert_eq!(amount(&m.ledger, m.vault), 100);
    assert!(record.is_some());
}

#[test]
fn cancel_rejects_bad_bindings() {
    let (mut m, mut record) = opened(100, 50, 100, 50);
    let auth = authority();

    let mut ctx = cancel_ctx(&m, ALICE);
    ctx.initializer_is_signer = false;
    assert_eq!(
        cancel_escrow_with_authority(&auth, &mut m.ledger, &mut record, &ctx),
        Err(EscrowError::NotSigner)
    );

    let mut ctx = cancel_ctx(&m, ALICE);
    ctx.initializer_deposit_token_account = m.alice_b;
    assert_eq!(
        cancel_escrow_with_authority(&auth, &mut m.ledger, &mut record, &ctx),
        Err(EscrowError::AccountMismatch)
    );

    let mut ctx = cancel_ctx(&m, ALICE);
    ctx.initializer_deposit_token_account = m.vault;
    assert_eq!(
        cancel_escrow_with_authority(&auth, &mut m.ledger, &mut record, &ctx),
        Err(EscrowError::DuplicateAccount)
    );

    let mut ctx = cancel_ctx(&m, ALICE);
    ctx.vault_authority = addr(ALICE);
    assert_eq!(
        cancel_escrow_with_authority(&auth, &mut m.ledger, &mut record, &ctx),
        Err(EscrowError::VaultAuthorityMismatch)
    );

    // A vault that does not hold the deposit is an integrity fault.
    let mut deal = record.unwrap();
    deal.initializer_amount = 99;
    let mut tampered = Some(deal);
    let ctx = cancel_ctx(&m, ALICE);
    assert_eq!(
        cancel_escrow_with_authority(&auth, &mut m.ledger, &mut tampered, &ctx),
        Err(EscrowError::IntegrityFault)
    );
    assert_eq!(amount(&m.ledger, m.vault), 100);
    assert!(record.is_some());
}
