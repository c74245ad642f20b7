use vstd::prelude::*;
use crate::address::Address;

verus! {

/// One token account of the asset ledger. A slot that is not `open` has not
/// been created yet, or has been closed.
#[derive(Clone, Copy, Debug)]
pub struct TokenAccount {
    pub address: Address,
    pub mint: Address,
    pub authority: Address,
    pub amount: u64,
    pub open: bool,
}

impl TokenAccount {
    pub open spec fn with_amount(self, amount: u64) -> TokenAccount {
        TokenAccount { amount, ..self }
    }

    pub open spec fn with_authority(self, authority: Address) -> TokenAccount {
        TokenAccount { authority, ..self }
    }

    pub open spec fn closed(self) -> TokenAccount {
        TokenAccount { open: false, ..self }
    }
}

/// How the ledger refuses a call.
#[derive(Clone, Copy, Debug, PartialEq, Eq, Structural)]
pub enum LedgerError {
    AccountMissing,
    InsufficientBalance,
    AuthorityMismatch,
    NonZeroBalance,
    Overflow,
    MintMismatch,
}

/// Moves `amount` from `from` to `to`, signed by `authority`; both accounts
/// must hold the same asset (mint).
#[derive(Clone, Copy, Debug)]
pub struct Transfer {
    pub from: usize,
    pub to: usize,
    pub authority: Address,
}

/// Hands the ownership of `account` from `current_authority` to another.
#[derive(Clone, Copy, Debug)]
pub struct SetAuthority {
    pub account: usize,
    pub current_authority: Address,
}

/// Closes `account`, signed by `authority`; its reserve goes to `destination`.
#[derive(Clone, Copy, Debug)]
pub struct CloseAccount {
    pub account: usize,
    pub destination: Address,
    pub authority: Address,
}

/// The asset ledger: token accounts addressed by their slot.
#[derive(Debug)]
pub struct Ledger {
    pub accounts: Vec<TokenAccount>,
}

impl View for Ledger {
    type V = Seq<TokenAccount>;

    open spec fn view(&self) -> Seq<TokenAccount> {
        self.accounts@
    }
}

/// Whether slot `i` holds an open account.
pub open spec fn is_live(s: Seq<TokenAccount>, i: int) -> bool {
    0 <= i < s.len() && s[i].open
}

pub open spec fn spec_transfer(s: Seq<TokenAccount>, t: Transfer, amount: u64) -> Result<
    Seq<TokenAccount>,
    LedgerError,
> {
    let (from, to) = (t.from as int, t.to as int);
    if !is_live(s, from) || !is_live(s, to) {
        Err(LedgerError::AccountMissing)
    } else if s[from].amount < amount {
        Err(LedgerError::InsufficientBalance)
    } else if s[from].mint != s[to].mint {
        Err(LedgerError::MintMismatch)
    } else if s[from].authority != t.authority {
        Err(LedgerError::AuthorityMismatch)
    } else if from == to {
        Ok(s)
    } else if s[to].amount + amount > u64::MAX {
        Err(LedgerError::Overflow)
    } else {
        Ok(
            s.update(from, s[from].with_amount((s[from].amount - amount) as u64)).update(
                to,
                s[to].with_amount((s[to].amount + amount) as u64),
            ),
        )
    }
}

pub open spec fn spec_set_authority(s: Seq<TokenAccount>, c: SetAuthority, new_authority: Address) -> Result<
    Seq<TokenAccount>,
    LedgerError,
> {
    let i = c.account as int;
    if !is_live(s, i) {
        Err(LedgerError::AccountMissing)
    } else if s[i].authority != c.current_authority {
        Err(LedgerError::AuthorityMismatch)
    } else {
        Ok(s.update(i, s[i].with_authority(new_authority)))
    }
}

pub open spec fn spec_close_account(s: Seq<TokenAccount>, c: CloseAccount) -> Result<
    Seq<TokenAccount>,
    LedgerError,
> {
    let i = c.account as int;
    if !is_live(s, i) {
        Err(LedgerError::AccountMissing)
    } else if s[i].authority != c.authority {
        Err(LedgerError::AuthorityMismatch)
    } else if s[i].amount != 0 {
        Err(LedgerError::NonZeroBalance)
    } else {
        Ok(s.update(i, s[i].closed()))
    }
}

/// `r` reports the outcome `spec` of a ledger call that took `before` to `after`.
pub open spec fn ledger_outcome(
    spec: Result<Seq<TokenAccount>, LedgerError>,
    r: Result<(), LedgerError>,
    before: Seq<TokenAccount>,
    after: Seq<TokenAccount>,
) -> bool {
    match spec {
        Ok(s) => r is Ok && after == s,
        Err(e) => r == Err::<(), LedgerError>(e) && after == before,
    }
}

impl Ledger {
    pub fn new() -> (r: Ledger)
        ensures
            r@ == Seq::<TokenAccount>::empty(),
    {
        Ledger { accounts: Vec::new() }
    }

    /// Adds a slot holding `account`; returns the slot.
    pub fn push(&mut self, account: TokenAccount) -> (r: usize)
        requires
            old(self)@.len() < usize::MAX,
        ensures
            final(self)@ == old(self)@.push(account),
            r == old(self)@.len(),
    {
        let r = self.accounts.len();
        self.accounts.push(account);
        r
    }

    /// The account in slot `i`, if there is such a slot.
    pub fn get(&self, i: usize) -> (r: Option<TokenAccount>)
        ensures
            r == (if i < self@.len() { Some(self@[i as int]) } else { None::<TokenAccount> }),
    {
        if i < self.accounts.len() {
            Some(self.accounts[i])
        } else {
            None
        }
    }

    /// Whether slot `i` holds an open account.
    pub fn is_live(&self, i: usize) -> (r: bool)
        ensures
            r == is_live(self@, i as int),
    {
        i < self.accounts.len() && self.accounts[i].open
    }

    /// A copy of the ledger, to work on before committing.
    pub fn snapshot(&self) -> (r: Ledger)
        ensures
            r@ == self@,
    {
        let mut accounts: Vec<TokenAccount> = Vec::new();
        let mut i: usize = 0;
        while i < self.accounts.len()
            invariant
                i <= self@.len(),
                accounts@ == self@.subrange(0, i as int),
            decreases self@.len() - i,
        {
            accounts.push(self.accounts[i]);
            i = i + 1;
            assert(accounts@ =~= self@.subrange(0, i as int));
        }
        assert(accounts@ =~= self@);
        Ledger { accounts }
    }

    pub fn transfer(&mut self, t: &Transfer, amount: u64) -> (r: Result<(), LedgerError>)
        ensures
            ledger_outcome(spec_transfer(old(self)@, *t, amount), r, old(self)@, final(self)@),
    {
        if !self.is_live(t.from) || !self.is_live(t.to) {
            return Err(LedgerError::AccountMissing);
        }
        let from = self.accounts[t.from];
        let to = self.accounts[t.to];
        if from.amount < amount {
            return Err(LedgerError::InsufficientBalance);
        }
        if !from.mint.same_as(&to.mint) {
            return Err(LedgerError::MintMismatch);
        }
        if !from.authority.same_as(&t.authority) {
            return Err(LedgerError::AuthorityMismatch);
        }
        if t.from == t.to {
            return Ok(());
        }
        if to.amount > u64::MAX - amount {
            return Err(LedgerError::Overflow);
        }
        self.accounts.set(t.from, TokenAccount { amount: from.amount - amount, ..from });
        self.accounts.set(t.to, TokenAccount { amount: to.amount + amount, ..to });
        Ok(())
    }

    pub fn set_authority(&mut self, c: &SetAuthority, new_authority: &Address) -> (r: Result<
        (),
        LedgerError,
    >)
        ensures
            ledger_outcome(
                spec_set_authority(old(self)@, *c, *new_authority),
                r,
                old(self)@,
                final(self)@,
            ),
    {
        if !self.is_live(c.account) {
            return Err(LedgerError::AccountMissing);
        }
        let acct = self.accounts[c.account];
        if !acct.authority.same_as(&c.current_authority) {
            return Err(LedgerError::AuthorityMismatch);
        }
        self.accounts.set(c.account, TokenAccount { authority: *new_authority, ..acct });
        Ok(())
    }

    pub fn close_account(&mut self, c: &CloseAccount) -> (r: Result<(), LedgerError>)
        ensures
            ledger_outcome(spec_close_account(old(self)@, *c), r, old(self)@, final(self)@),
    {
        if !self.is_live(c.account) {
            return Err(LedgerError::AccountMissing);
        }
        let acct = self.accounts[c.account];
        if !acct.authority.same_as(&c.authority) {
            return Err(LedgerError::AuthorityMismatch);
        }
        if acct.amount != 0 {
            return Err(LedgerError::NonZeroBalance);
        }
        self.accounts.set(c.account, TokenAccount { open: false, ..acct });
        Ok(())
    }
}

} // verus!
