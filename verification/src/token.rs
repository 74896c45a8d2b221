//! The token capability: account balances, escrow accounts per channel,
//! and the escrow/burn operations the transfer application invokes, each
//! split into a validation-only and an execution variant.

use crate::denom::{denom_eq, denom_key, Coin, PrefixedDenom};
use crate::errors::TokenTransferError;
use vstd::prelude::*;

verus! {

/// The mathematical key of a denomination, as `denom_key` computes it.
pub type DenomKey = (Seq<(Seq<char>, Seq<char>)>, Seq<char>);

/// One account's holding of one denomination.
#[derive(Debug)]
pub struct BalanceEntry {
    pub account: String,
    pub denom: PrefixedDenom,
    pub amount: u64,
}

/// The escrow account configured for one (port, channel).
#[derive(Debug)]
pub struct EscrowEntry {
    pub port_id: String,
    pub channel_id: String,
    pub account: String,
}

/// A token movement performed by the execute phase.
#[derive(Debug)]
pub enum TokenOp {
    /// Coins locked: moved from the sender to the channel's escrow account.
    Escrow { from: String, to: String, denom: PrefixedDenom, amount: u64 },
    /// Coins destroyed from the sender's balance.
    Burn { account: String, denom: PrefixedDenom, amount: u64 },
}

/// The outcome of a balance-moving check.
#[derive(Clone, Copy, Debug, PartialEq, Eq, Structural)]
pub enum TokenCheck {
    Accept,
    Insufficient,
    Overflow,
}

/// The token-transfer execution context: balances, escrow accounts, the
/// host's send switch, and the log of operations performed.
#[derive(Debug)]
pub struct TokenContext {
    pub can_send: bool,
    pub escrow_accounts: Vec<EscrowEntry>,
    pub balances: Vec<BalanceEntry>,
    pub ops: Vec<TokenOp>,
}

impl TokenContext {
    /// The (account, denomination) key of the balance entry at `i`.
    pub open spec fn bal_key_at(self, i: int) -> (Seq<char>, DenomKey) {
        (self.balances@[i].account@, denom_key(self.balances@[i].denom))
    }

    /// The (port, channel) key of the escrow entry at `i`.
    pub open spec fn escrow_key_at(self, i: int) -> (Seq<char>, Seq<char>) {
        (self.escrow_accounts@[i].port_id@, self.escrow_accounts@[i].channel_id@)
    }

    /// Well-formed: balance keys and escrow keys are unique.
    pub open spec fn wf(self) -> bool {
        &&& forall|i: int, j: int|
            0 <= i < j < self.balances@.len() ==> #[trigger] self.bal_key_at(i)
                != #[trigger] self.bal_key_at(j)
        &&& forall|i: int, j: int|
            0 <= i < j < self.escrow_accounts@.len() ==> #[trigger] self.escrow_key_at(i)
                != #[trigger] self.escrow_key_at(j)
    }

    /// Some balance entry carries the key.
    pub open spec fn has_balance(self, account: Seq<char>, k: DenomKey) -> bool {
        exists|i: int| 0 <= i < self.balances@.len() && #[trigger] self.bal_key_at(i) == (account, k)
    }

    /// The index of the balance entry with the key.
    pub open spec fn balance_index(self, account: Seq<char>, k: DenomKey) -> int {
        choose|i: int| 0 <= i < self.balances@.len() && #[trigger] self.bal_key_at(i) == (account, k)
    }

    /// The balance an account holds of a denomination; zero if no entry.
    pub open spec fn balance_of(self, account: Seq<char>, k: DenomKey) -> u64 {
        if self.has_balance(account, k) {
            self.balances@[self.balance_index(account, k)].amount
        } else {
            0
        }
    }

    /// Some escrow account is configured for the (port, channel).
    pub open spec fn has_escrow(self, port: Seq<char>, chan: Seq<char>) -> bool {
        exists|i: int|
            0 <= i < self.escrow_accounts@.len() && #[trigger] self.escrow_key_at(i) == (port, chan)
    }

    /// The escrow account configured for the (port, channel).
    pub open spec fn escrow_account_of(self, port: Seq<char>, chan: Seq<char>) -> Seq<char> {
        self.escrow_accounts@[choose|i: int|
            0 <= i < self.escrow_accounts@.len() && #[trigger] self.escrow_key_at(i) == (
                port,
                chan,
            )].account@
    }

    /// In a well-formed context the balance key pins the entry.
    pub proof fn lemma_bal_key_pins_index(self, i: int, account: Seq<char>, k: DenomKey)
        requires
            self.wf(),
            0 <= i < self.balances@.len(),
            self.bal_key_at(i) == (account, k),
        ensures
            self.has_balance(account, k),
            self.balance_index(account, k) == i,
    {
        assert(self.has_balance(account, k));
        let j = self.balance_index(account, k);
        if i < j {
            assert(self.bal_key_at(i) != self.bal_key_at(j));
        } else if j < i {
            assert(self.bal_key_at(j) != self.bal_key_at(i));
        }
    }

    /// In a well-formed context the escrow key pins the entry.
    pub proof fn lemma_escrow_key_pins_index(self, i: int, port: Seq<char>, chan: Seq<char>)
        requires
            self.wf(),
            0 <= i < self.escrow_accounts@.len(),
            self.escrow_key_at(i) == (port, chan),
        ensures
            self.has_escrow(port, chan),
            self.escrow_account_of(port, chan) == self.escrow_accounts@[i].account@,
    {
        assert(self.has_escrow(port, chan));
        let j = choose|j: int|
            0 <= j < self.escrow_accounts@.len() && #[trigger] self.escrow_key_at(j) == (
                port,
                chan,
            );
        if i < j {
            assert(self.escrow_key_at(i) != self.escrow_key_at(j));
        } else if j < i {
            assert(self.escrow_key_at(j) != self.escrow_key_at(i));
        }
    }

    /// A fresh context with no entries and sending enabled.
    pub fn new() -> (r: TokenContext)
        ensures
            r.wf(),
            r.can_send,
            r.escrow_accounts@.len() == 0,
            r.balances@.len() == 0,
            r.ops@.len() == 0,
    {
        TokenContext {
            can_send: true,
            escrow_accounts: Vec::new(),
            balances: Vec::new(),
            ops: Vec::new(),
        }
    }

    /// Capability: the caller account may send coins at all.
    pub fn can_send_coins(&self) -> (r: Result<(), TokenTransferError>)
        ensures
            r is Ok <==> self.can_send,
            r is Err ==> r matches Err(TokenTransferError::SendDisabled),
    {
        if self.can_send {
            Ok(())
        } else {
            Err(TokenTransferError::SendDisabled)
        }
    }

    /// Capability: resolves the escrow account of a (port, channel).
    pub fn get_escrow_account(&self, port_id: &String, channel_id: &String) -> (r: Result<
        String,
        TokenTransferError,
    >)
        requires
            self.wf(),
        ensures
            match r {
                Ok(a) => self.has_escrow(port_id@, channel_id@) && a@ == self.escrow_account_of(
                    port_id@,
                    channel_id@,
                ),
                Err(e) => !self.has_escrow(port_id@, channel_id@) && (e matches
                    TokenTransferError::EscrowAccountNotFound { port_id: p, channel_id: c } && p@
                    == port_id@ && c@ == channel_id@),
            },
    {
        let mut i: usize = 0;
        while i < self.escrow_accounts.len()
            invariant
                self.wf(),
                i <= self.escrow_accounts@.len(),
                forall|j: int|
                    0 <= j < i ==> #[trigger] self.escrow_key_at(j) != (port_id@, channel_id@),
            decreases self.escrow_accounts@.len() - i,
        {
            let e = &self.escrow_accounts[i];
            if e.port_id == *port_id && e.channel_id == *channel_id {
                proof {
                    self.lemma_escrow_key_pins_index(i as int, port_id@, channel_id@);
                }
                return Ok(self.escrow_accounts[i].account.clone());
            }
            i = i + 1;
        }
        Err(
            TokenTransferError::EscrowAccountNotFound {
                port_id: port_id.clone(),
                channel_id: channel_id.clone(),
            },
        )
    }

    /// Configures the escrow account for a fresh (port, channel). Fails,
    /// changing nothing, if one is already configured.
    pub fn add_escrow_account(&mut self, port_id: String, channel_id: String, account: String) -> (r:
        bool)
        requires
            old(self).wf(),
        ensures
            final(self).wf(),
            r == !old(self).has_escrow(port_id@, channel_id@),
            !r ==> *final(self) == *old(self),
            r ==> {
                &&& final(self).has_escrow(port_id@, channel_id@)
                &&& final(self).escrow_account_of(port_id@, channel_id@) == account@
                &&& final(self).balances == old(self).balances
                &&& final(self).ops == old(self).ops
                &&& final(self).can_send == old(self).can_send
            },
    {
        let mut i: usize = 0;
        while i < self.escrow_accounts.len()
            invariant
                *self == *old(self),
                old(self).wf(),
                i <= self.escrow_accounts@.len(),
                forall|j: int|
                    0 <= j < i ==> #[trigger] self.escrow_key_at(j) != (port_id@, channel_id@),
            decreases self.escrow_accounts@.len() - i,
        {
            let e = &self.escrow_accounts[i];
            if e.port_id == port_id && e.channel_id == channel_id {
                proof {
                    assert(self.escrow_key_at(i as int) == (port_id@, channel_id@));
                }
                return false;
            }
            i = i + 1;
        }
        let ghost pre = *self;
        let n = self.escrow_accounts.len();
        self.escrow_accounts.push(EscrowEntry { port_id, channel_id, account });
        proof {
            assert forall|a: int, b: int|
                0 <= a < b < self.escrow_accounts@.len() implies #[trigger] self.escrow_key_at(a)
                != #[trigger] self.escrow_key_at(b) by {
                if b < n as int {
                    assert(pre.escrow_key_at(a) != pre.escrow_key_at(b));
                    assert(self.escrow_key_at(a) == pre.escrow_key_at(a));
                    assert(self.escrow_key_at(b) == pre.escrow_key_at(b));
                } else {
                    assert(self.escrow_key_at(a) == pre.escrow_key_at(a));
                }
            }
            assert forall|a: int, b: int|
                0 <= a < b < self.balances@.len() implies #[trigger] self.bal_key_at(a)
                != #[trigger] self.bal_key_at(b) by {
                assert(pre.bal_key_at(a) != pre.bal_key_at(b));
            }
            self.lemma_escrow_key_pins_index(
                n as int,
                self.escrow_accounts@[n as int].port_id@,
                self.escrow_accounts@[n as int].channel_id@,
            );
        }
        true
    }

    /// Looks up the index of the balance entry with the key.
    fn find_balance(&self, account: &String, denom: &PrefixedDenom) -> (r: Option<usize>)
        ensures
            match r {
                Some(i) => i < self.balances@.len() && self.bal_key_at(i as int) == (
                    account@,
                    denom_key(*denom),
                ),
                None => !self.has_balance(account@, denom_key(*denom)),
            },
    {
        let mut i: usize = 0;
        while i < self.balances.len()
            invariant
                i <= self.balances@.len(),
                forall|j: int|
                    0 <= j < i ==> #[trigger] self.bal_key_at(j) != (account@, denom_key(*denom)),
            decreases self.balances@.len() - i,
        {
            let e = &self.balances[i];
            if e.account == *account && denom_eq(&e.denom, denom) {
                return Some(i);
            }
            i = i + 1;
        }
        None
    }

    /// Reads the balance an account holds of a denomination.
    pub fn get_balance(&self, account: &String, denom: &PrefixedDenom) -> (r: u64)
        requires
            self.wf(),
        ensures
            r == self.balance_of(account@, denom_key(*denom)),
    {
        match self.find_balance(account, denom) {
            Some(i) => {
                proof {
                    self.lemma_bal_key_pins_index(i as int, account@, denom_key(*denom));
                }
                self.balances[i].amount
            },
            None => 0,
        }
    }

    /// Writes the balance of one (account, denomination) key, inserting an
    /// entry if none exists, and changes no other key and nothing else.
    pub fn set_balance(&mut self, account: &String, denom: &PrefixedDenom, amount: u64)
        requires
            old(self).wf(),
        ensures
            final(self).wf(),
            final(self).balance_of(account@, denom_key(*denom)) == amount,
            forall|a: Seq<char>, k: DenomKey|
                (a, k) != (account@, denom_key(*denom)) ==> #[trigger] final(self).balance_of(a, k)
                    == old(self).balance_of(a, k),
            final(self).escrow_accounts == old(self).escrow_accounts,
            final(self).ops == old(self).ops,
            final(self).can_send == old(self).can_send,
    {
        let ghost pre = *self;
        let ghost key = (account@, denom_key(*denom));
        match self.find_balance(account, denom) {
            Some(i) => {
                proof {
                    pre.lemma_bal_key_pins_index(i as int, account@, denom_key(*denom));
                }
                let e = &mut self.balances[i];
                e.amount = amount;
                proof {
                    assert forall|a: int, b: int|
                        0 <= a < b < self.balances@.len() implies #[trigger] self.bal_key_at(a)
                        != #[trigger] self.bal_key_at(b) by {
                        assert(pre.bal_key_at(a) != pre.bal_key_at(b));
                        assert(self.bal_key_at(a) == pre.bal_key_at(a));
                        assert(self.bal_key_at(b) == pre.bal_key_at(b));
                    }
                    assert forall|a: int, b: int|
                        0 <= a < b < self.escrow_accounts@.len() implies #[trigger] self.escrow_key_at(
                        a,
                    ) != #[trigger] self.escrow_key_at(b) by {
                        assert(pre.escrow_key_at(a) != pre.escrow_key_at(b));
                    }
                    self.lemma_bal_key_pins_index(i as int, account@, denom_key(*denom));
                    assert forall|a: Seq<char>, k: DenomKey|
                        (a, k) != key implies #[trigger] self.balance_of(a, k) == pre.balance_of(
                        a,
                        k,
                    ) by {
                        assert forall|j: int| 0 <= j < self.balances@.len() implies
                            #[trigger] self.bal_key_at(j) == pre.bal_key_at(j) by {}
                        if self.has_balance(a, k) {
                            let j = self.balance_index(a, k);
                            pre.lemma_bal_key_pins_index(j, a, k);
                            assert(j != i as int);
                        } else if pre.has_balance(a, k) {
                            let j = pre.balance_index(a, k);
                            self.lemma_bal_key_pins_index(j, a, k);
                        }
                    }
                }
            },
            None => {
                let ghost n = self.balances@.len() as int;
                self.balances.push(
                    BalanceEntry { account: account.clone(), denom: denom.clone(), amount },
                );
                proof {
                    assert(self.bal_key_at(n) == key);
                    assert forall|a: int, b: int|
                        0 <= a < b < self.balances@.len() implies #[trigger] self.bal_key_at(a)
                        != #[trigger] self.bal_key_at(b) by {
                        if b < n {
                            assert(pre.bal_key_at(a) != pre.bal_key_at(b));
                            assert(self.bal_key_at(a) == pre.bal_key_at(a));
                            assert(self.bal_key_at(b) == pre.bal_key_at(b));
                        } else {
                            assert(self.bal_key_at(a) == pre.bal_key_at(a));
                            if self.bal_key_at(a) == self.bal_key_at(b) {
                                assert(pre.has_balance(key.0, key.1));
                            }
                        }
                    }
                    assert forall|a: int, b: int|
                        0 <= a < b < self.escrow_accounts@.len() implies #[trigger] self.escrow_key_at(
                        a,
                    ) != #[trigger] self.escrow_key_at(b) by {
                        assert(pre.escrow_key_at(a) != pre.escrow_key_at(b));
                    }
                    self.lemma_bal_key_pins_index(n, account@, denom_key(*denom));
                    assert forall|a: Seq<char>, k: DenomKey|
                        (a, k) != key implies #[trigger] self.balance_of(a, k) == pre.balance_of(
                        a,
                        k,
                    ) by {
                        assert forall|j: int| 0 <= j < n implies #[trigger] self.bal_key_at(j)
                            == pre.bal_key_at(j) by {}
                        if self.has_balance(a, k) {
                            let j = self.balance_index(a, k);
                            assert(j != n);
                            pre.lemma_bal_key_pins_index(j, a, k);
                        } else if pre.has_balance(a, k) {
                            let j = pre.balance_index(a, k);
                            self.lemma_bal_key_pins_index(j, a, k);
                        }
                    }
                }
            },
        }
    }
    /// Decides whether a move of `amount` from `from` to `to` can be done:
    /// the debit must be covered and the credit must not overflow.
    pub open spec fn spec_send_coins_check(
        self,
        from: Seq<char>,
        to: Seq<char>,
        k: DenomKey,
        amount: u64,
    ) -> TokenCheck {
        if self.balance_of(from, k) < amount {
            TokenCheck::Insufficient
        } else if from != to && self.balance_of(to, k) > u64::MAX - amount {
            TokenCheck::Overflow
        } else {
            TokenCheck::Accept
        }
    }

    /// Decides whether a burn of `amount` from `account` can be done.
    pub open spec fn spec_burn_coins_check(self, account: Seq<char>, k: DenomKey, amount: u64) -> TokenCheck {
        if self.balance_of(account, k) < amount {
            TokenCheck::Insufficient
        } else {
            TokenCheck::Accept
        }
    }

    /// Capability, validation variant: checks that coins can move from
    /// `from` to `to` without touching any state.
    pub fn send_coins_validate(&self, from: &String, to: &String, coin: &Coin) -> (r: Result<
        (),
        TokenTransferError,
    >)
        requires
            self.wf(),
        ensures
            match self.spec_send_coins_check(from@, to@, denom_key(coin.denom), coin.amount) {
                TokenCheck::Accept => r is Ok,
                TokenCheck::Insufficient => r matches Err(TokenTransferError::InsufficientFunds),
                TokenCheck::Overflow => r matches Err(TokenTransferError::BalanceOverflow),
            },
    {
        let from_bal = self.get_balance(from, &coin.denom);
        if from_bal < coin.amount {
            return Err(TokenTransferError::InsufficientFunds);
        }
        if !(*from == *to) {
            let to_bal = self.get_balance(to, &coin.denom);
            if to_bal > u64::MAX - coin.amount {
                return Err(TokenTransferError::BalanceOverflow);
            }
        }
        Ok(())
    }

    /// Capability, validation variant: checks that coins can be burned.
    pub fn burn_coins_validate(&self, account: &String, coin: &Coin) -> (r: Result<
        (),
        TokenTransferError,
    >)
        requires
            self.wf(),
        ensures
            match self.spec_burn_coins_check(account@, denom_key(coin.denom), coin.amount) {
                TokenCheck::Accept => r is Ok,
                TokenCheck::Insufficient => r matches Err(TokenTransferError::InsufficientFunds),
                TokenCheck::Overflow => false,
            },
    {
        let bal = self.get_balance(account, &coin.denom);
        if bal < coin.amount {
            return Err(TokenTransferError::InsufficientFunds);
        }
        Ok(())
    }

    /// Capability, execution variant: moves `coin` from `from` into `to`
    /// (the escrow lock), records the escrow operation, and changes no
    /// other balance. Fails, changing nothing, exactly when the validation
    /// variant fails.
    pub fn send_coins_execute(&mut self, from: &String, to: &String, coin: &Coin) -> (r: Result<
        (),
        TokenTransferError,
    >)
        requires
            old(self).wf(),
        ensures
            final(self).wf(),
            match old(self).spec_send_coins_check(from@, to@, denom_key(coin.denom), coin.amount) {
                TokenCheck::Accept => r is Ok && spec_escrowed(
                    *old(self),
                    *final(self),
                    from@,
                    to@,
                    denom_key(coin.denom),
                    coin.amount,
                ),
                TokenCheck::Insufficient => r matches Err(TokenTransferError::InsufficientFunds)
                    && *final(self) == *old(self),
                TokenCheck::Overflow => r matches Err(TokenTransferError::BalanceOverflow)
                    && *final(self) == *old(self),
            },
    {
        let ghost pre = *self;
        let ghost k = denom_key(coin.denom);
        let from_bal = self.get_balance(from, &coin.denom);
        if from_bal < coin.amount {
            return Err(TokenTransferError::InsufficientFunds);
        }
        let same = *from == *to;
        if !same {
            let to_bal = self.get_balance(to, &coin.denom);
            if to_bal > u64::MAX - coin.amount {
                return Err(TokenTransferError::BalanceOverflow);
            }
            self.set_balance(from, &coin.denom, from_bal - coin.amount);
            let ghost mid = *self;
            self.set_balance(to, &coin.denom, to_bal + coin.amount);
            proof {
                assert((to@, k) != (from@, k));
                assert(self.balance_of(from@, k) == mid.balance_of(from@, k));
            }
        }
        let ghost before_push = *self;
        self.ops.push(
            TokenOp::Escrow {
                from: from.clone(),
                to: to.clone(),
                denom: coin.denom.clone(),
                amount: coin.amount,
            },
        );
        proof {
            lemma_same_stores(before_push, *self);
            assert(self.ops@.drop_last() =~= before_push.ops@);
        }
        Ok(())
    }

    /// Capability, execution variant: burns `coin` from `account`, records
    /// the burn operation, and changes no other balance. Fails, changing
    /// nothing, exactly when the validation variant fails.
    pub fn burn_coins_execute(&mut self, account: &String, coin: &Coin) -> (r: Result<
        (),
        TokenTransferError,
    >)
        requires
            old(self).wf(),
        ensures
            final(self).wf(),
            match old(self).spec_burn_coins_check(account@, denom_key(coin.denom), coin.amount) {
                TokenCheck::Accept => r is Ok && spec_burned(
                    *old(self),
                    *final(self),
                    account@,
                    denom_key(coin.denom),
                    coin.amount,
                ),
                TokenCheck::Insufficient => r matches Err(TokenTransferError::InsufficientFunds)
                    && *final(self) == *old(self),
                TokenCheck::Overflow => false,
            },
    {
        let bal = self.get_balance(account, &coin.denom);
        if bal < coin.amount {
            return Err(TokenTransferError::InsufficientFunds);
        }
        self.set_balance(account, &coin.denom, bal - coin.amount);
        let ghost before_push = *self;
        self.ops.push(
            TokenOp::Burn { account: account.clone(), denom: coin.denom.clone(), amount: coin.amount },
        );
        proof {
            lemma_same_stores(before_push, *self);
            assert(self.ops@.drop_last() =~= before_push.ops@);
        }
        Ok(())
    }
}

/// Two contexts with the same balance and escrow stores agree on
/// well-formedness, on every balance, and on every escrow account.
pub proof fn lemma_same_stores(a: TokenContext, b: TokenContext)
    requires
        a.wf(),
        b.balances@ == a.balances@,
        b.escrow_accounts@ == a.escrow_accounts@,
    ensures
        b.wf(),
        forall|acc: Seq<char>, k: DenomKey| #[trigger] b.balance_of(acc, k) == a.balance_of(acc, k),
        forall|p: Seq<char>, c: Seq<char>| #[trigger] b.has_escrow(p, c) == a.has_escrow(p, c),
        forall|p: Seq<char>, c: Seq<char>| a.has_escrow(p, c) ==> #[trigger] b.escrow_account_of(
            p,
            c,
        ) == a.escrow_account_of(p, c),
{
    assert forall|i: int, j: int|
        0 <= i < j < b.balances@.len() implies #[trigger] b.bal_key_at(i) != #[trigger] b.bal_key_at(
        j,
    ) by {
        assert(a.bal_key_at(i) != a.bal_key_at(j));
    }
    assert forall|i: int, j: int|
        0 <= i < j < b.escrow_accounts@.len() implies #[trigger] b.escrow_key_at(i)
        != #[trigger] b.escrow_key_at(j) by {
        assert(a.escrow_key_at(i) != a.escrow_key_at(j));
    }
    assert forall|acc: Seq<char>, k: DenomKey| #[trigger] b.balance_of(acc, k) == a.balance_of(
        acc,
        k,
    ) by {
        if b.has_balance(acc, k) {
            let i = b.balance_index(acc, k);
            assert(b.bal_key_at(i) == (acc, k));
            assert(a.bal_key_at(i) == (acc, k));
            a.lemma_bal_key_pins_index(i, acc, k);
        } else if a.has_balance(acc, k) {
            let i = a.balance_index(acc, k);
            assert(b.bal_key_at(i) == (acc, k));
            assert(b.has_balance(acc, k));
        }
    }
    assert forall|p: Seq<char>, c: Seq<char>| #[trigger] b.has_escrow(p, c) == a.has_escrow(
        p,
        c,
    ) by {
        if b.has_escrow(p, c) {
            let i = choose|i: int|
                0 <= i < b.escrow_accounts@.len() && #[trigger] b.escrow_key_at(i) == (p, c);
            assert(a.escrow_key_at(i) == (p, c));
            assert(a.has_escrow(p, c));
        }
        if a.has_escrow(p, c) {
            let i = choose|i: int|
                0 <= i < a.escrow_accounts@.len() && #[trigger] a.escrow_key_at(i) == (p, c);
            assert(b.escrow_key_at(i) == (p, c));
            assert(b.has_escrow(p, c));
        }
    }
    assert forall|p: Seq<char>, c: Seq<char>| a.has_escrow(p, c) implies
        #[trigger] b.escrow_account_of(p, c) == a.escrow_account_of(p, c) by {
        let i = choose|i: int|
            0 <= i < a.escrow_accounts@.len() && #[trigger] a.escrow_key_at(i) == (p, c);
        assert(b.escrow_key_at(i) == (p, c));
        a.lemma_escrow_key_pins_index(i, p, c);
        b.lemma_escrow_key_pins_index(i, p, c);
    }
}

/// The state transition of a successful escrow: the sender's balance fell
/// by the amount, the escrow account's rose by it (a self-transfer leaves
/// balances untouched), every other balance is unchanged, and exactly one
/// escrow operation was recorded.
pub open spec fn spec_escrowed(
    pre: TokenContext,
    post: TokenContext,
    from: Seq<char>,
    to: Seq<char>,
    k: DenomKey,
    amount: u64,
) -> bool {
    &&& if from == to {
        post.balances@ == pre.balances@
    } else {
        &&& post.balance_of(from, k) == pre.balance_of(from, k) - amount
        &&& post.balance_of(to, k) == pre.balance_of(to, k) + amount
        &&& forall|a: Seq<char>, k2: DenomKey|
            (a, k2) != (from, k) && (a, k2) != (to, k) ==> #[trigger] post.balance_of(a, k2)
                == pre.balance_of(a, k2)
    }
    &&& post.ops@.len() == pre.ops@.len() + 1
    &&& post.ops@.drop_last() == pre.ops@
    &&& (post.ops@.last() matches TokenOp::Escrow { from: f, to: t, denom: d, amount: m } && f@
        == from && t@ == to && denom_key(d) == k && m == amount)
    &&& post.escrow_accounts@ == pre.escrow_accounts@
    &&& post.can_send == pre.can_send
}

/// The state transition of a successful burn: the account's balance fell
/// by the amount, every other balance is unchanged, and exactly one burn
/// operation was recorded.
pub open spec fn spec_burned(
    pre: TokenContext,
    post: TokenContext,
    account: Seq<char>,
    k: DenomKey,
    amount: u64,
) -> bool {
    &&& post.balance_of(account, k) == pre.balance_of(account, k) - amount
    &&& forall|a: Seq<char>, k2: DenomKey|
        (a, k2) != (account, k) ==> #[trigger] post.balance_of(a, k2) == pre.balance_of(a, k2)
    &&& post.ops@.len() == pre.ops@.len() + 1
    &&& post.ops@.drop_last() == pre.ops@
    &&& (post.ops@.last() matches TokenOp::Burn { account: acc, denom: d, amount: m } && acc@
        == account && denom_key(d) == k && m == amount)
    &&& post.escrow_accounts@ == pre.escrow_accounts@
    &&& post.can_send == pre.can_send
}

} // verus!
