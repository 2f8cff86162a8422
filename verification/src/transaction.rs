//! What is resolved once per transaction and read during dispatch: the
//! signature, the account table, the signers and the token balances.

use vstd::prelude::*;
use crate::block::{TokenBalance, Transaction};
use crate::error::BadInput;
use crate::pubkey::{base58_encode, base58_text, pubkey_views, Pubkey};

verus! {

/// The byte strings of a list of raw keys.
pub open spec fn key_bytes(keys: Seq<Vec<u8>>) -> Seq<Seq<u8>> {
    keys.map_values(|k: Vec<u8>| k@)
}

/// The account table of a transaction: its account keys, then the writable
/// and then the read-only addresses that were loaded from lookup tables.
pub open spec fn resolved_keys(transaction: Transaction) -> Seq<Seq<u8>> {
    match transaction.meta {
        Some(meta) => key_bytes(transaction.account_keys@) + key_bytes(
            meta.loaded_writable_addresses@,
        ) + key_bytes(meta.loaded_readonly_addresses@),
        None => key_bytes(transaction.account_keys@),
    }
}

/// Whether every entry of the account table is 32 bytes long.
pub open spec fn keys_valid(transaction: Transaction) -> bool {
    forall|i: int|
        0 <= i < resolved_keys(transaction).len() ==> (#[trigger] resolved_keys(transaction)[i]).len()
            == 32
}

/// The first balance record of an account at or after position `from`.
pub open spec fn first_balance(balances: Seq<TokenBalance>, account_index: u32, from: int) -> Option<
    TokenBalance,
>
    decreases balances.len() - from,
{
    if from < 0 || from >= balances.len() {
        None
    } else if balances[from].account_index == account_index {
        Some(balances[from])
    } else {
        first_balance(balances, account_index, from + 1)
    }
}

/// A token account of a transaction with its balances around the transaction.
#[derive(Clone, Debug, PartialEq, Eq)]
pub struct TokenAccount {
    pub account_index: u32,
    pub mint: String,
    pub owner: String,
    /// The balance before the transaction, where one was recorded.
    pub pre_balance: Option<u64>,
    /// The balance after the transaction, where one was recorded.
    pub post_balance: Option<u64>,
}

/// The mathematical value of a [`TokenAccount`].
pub struct TokenAccountView {
    pub account_index: u32,
    pub mint: Seq<char>,
    pub owner: Seq<char>,
    pub pre_balance: Option<u64>,
    pub post_balance: Option<u64>,
}

impl View for TokenAccount {
    type V = TokenAccountView;

    open spec fn view(&self) -> TokenAccountView {
        TokenAccountView {
            account_index: self.account_index,
            mint: self.mint@,
            owner: self.owner@,
            pre_balance: self.pre_balance,
            post_balance: self.post_balance,
        }
    }
}

/// The token account at an account index: present where a balance was
/// recorded for it before or after the transaction. Mint and owner come from
/// the record before the transaction, or else from the one after it.
pub open spec fn token_account_at(
    pre: Seq<TokenBalance>,
    post: Seq<TokenBalance>,
    account_index: u32,
) -> Option<TokenAccountView> {
    match (first_balance(pre, account_index, 0), first_balance(post, account_index, 0)) {
        (None, None) => None,
        (Some(before), after) => Some(
            TokenAccountView {
                account_index,
                mint: before.mint@,
                owner: before.owner@,
                pre_balance: Some(before.amount),
                post_balance: match after {
                    Some(a) => Some(a.amount),
                    None => None,
                },
            },
        ),
        (None, Some(after)) => Some(
            TokenAccountView {
                account_index,
                mint: after.mint@,
                owner: after.owner@,
                pre_balance: None,
                post_balance: Some(after.amount),
            },
        ),
    }
}

/// Why no context can be built for a transaction, if anything.
pub open spec fn context_fault(transaction: Transaction) -> Option<BadInput> {
    if transaction.meta is None {
        Some(BadInput::MissingMeta)
    } else if transaction.signatures@.len() == 0 {
        Some(BadInput::MissingSignature)
    } else if !keys_valid(transaction) || transaction.num_required_signatures
        > transaction.account_keys@.len() {
        Some(BadInput::InconsistentAccounts)
    } else {
        None
    }
}

/// The resolved view of one transaction. It is built once and not changed
/// afterwards.
#[derive(Debug)]
pub struct TransactionContext<'a> {
    /// Base58 text of the first signature.
    pub signature: String,
    /// The account table: address by account index.
    pub accounts: Vec<Pubkey>,
    /// The leading accounts that signed the transaction.
    pub signers: Vec<Pubkey>,
    pub pre_token_balances: &'a Vec<TokenBalance>,
    pub post_token_balances: &'a Vec<TokenBalance>,
}

/// Appends the addresses that a list of raw keys holds. Reports whether every
/// key was 32 bytes long; if one was not, the output is not to be used.
fn append_keys(accounts: &mut Vec<Pubkey>, keys: &Vec<Vec<u8>>) -> (valid: bool)
    ensures
        valid <==> (forall|i: int| 0 <= i < keys@.len() ==> (#[trigger] keys@[i])@.len() == 32),
        valid ==> pubkey_views(final(accounts)@) == pubkey_views(old(accounts)@) + key_bytes(keys@),
{
    let mut i: usize = 0;
    while i < keys.len()
        invariant
            i <= keys@.len(),
            forall|j: int| 0 <= j < i ==> (#[trigger] keys@[j])@.len() == 32,
            pubkey_views(accounts@) == pubkey_views(old(accounts)@) + key_bytes(keys@).take(
                i as int,
            ),
        decreases keys@.len() - i,
    {
        match Pubkey::from_bytes(keys[i].as_slice()) {
            Some(key) => {
                let ghost before = accounts@;
                accounts.push(key);
                assert(pubkey_views(accounts@) =~= pubkey_views(before).push(key@));
            },
            None => {
                return false;
            },
        }
        i += 1;
    }
    true
}

/// Materializes the account table of a transaction.
pub fn resolved_accounts(transaction: &Transaction) -> (result: Result<Vec<Pubkey>, BadInput>)
    ensures
        match result {
            Ok(accounts) => transaction.meta is Some && keys_valid(*transaction) && pubkey_views(
                accounts@,
            ) == resolved_keys(*transaction),
            Err(kind) => if transaction.meta is None {
                kind == BadInput::MissingMeta
            } else {
                kind == BadInput::InconsistentAccounts && !keys_valid(*transaction)
            },
        },
{
    let meta = match &transaction.meta {
        Some(meta) => meta,
        None => {
            return Err(BadInput::MissingMeta);
        },
    };
    let ghost own = key_bytes(transaction.account_keys@);
    let ghost writable = key_bytes(meta.loaded_writable_addresses@);
    let mut accounts: Vec<Pubkey> = Vec::new();
    if !append_keys(&mut accounts, &transaction.account_keys) {
        proof {
            let i = choose|i: int|
                0 <= i < transaction.account_keys@.len() && (
                #[trigger] transaction.account_keys@[i])@.len() != 32;
            assert(resolved_keys(*transaction)[i] == transaction.account_keys@[i]@);
        }
        return Err(BadInput::InconsistentAccounts);
    }
    if !append_keys(&mut accounts, &meta.loaded_writable_addresses) {
        proof {
            let i = choose|i: int|
                0 <= i < meta.loaded_writable_addresses@.len() && (
                #[trigger] meta.loaded_writable_addresses@[i])@.len() != 32;
            assert(resolved_keys(*transaction)[own.len() + i]
                == meta.loaded_writable_addresses@[i]@);
        }
        return Err(BadInput::InconsistentAccounts);
    }
    if !append_keys(&mut accounts, &meta.loaded_readonly_addresses) {
        proof {
            let i = choose|i: int|
                0 <= i < meta.loaded_readonly_addresses@.len() && (
                #[trigger] meta.loaded_readonly_addresses@[i])@.len() != 32;
            assert(resolved_keys(*transaction)[own.len() + writable.len() + i]
                == meta.loaded_readonly_addresses@[i]@);
        }
        return Err(BadInput::InconsistentAccounts);
    }
    Ok(accounts)
}

/// The position of the first balance record of an account.
fn find_balance(balances: &Vec<TokenBalance>, account_index: u32) -> (found: Option<usize>)
    ensures
        match found {
            Some(i) => i < balances@.len() && first_balance(balances@, account_index, 0) == Some(
                balances@[i as int],
            ),
            None => first_balance(balances@, account_index, 0) is None,
        },
{
    let mut i: usize = 0;
    while i < balances.len()
        invariant
            i <= balances@.len(),
            first_balance(balances@, account_index, 0) == first_balance(
                balances@,
                account_index,
                i as int,
            ),
        decreases balances@.len() - i,
    {
        if balances[i].account_index == account_index {
            return Some(i);
        }
        i += 1;
    }
    None
}

impl<'a> TransactionContext<'a> {
    /// Resolves a transaction: the base58 text of its first signature, its
    /// account table, its signers and its token balances. Fails where the
    /// meta record is missing, no signature is there, or the account table is
    /// inconsistent.
    pub fn build(transaction: &'a Transaction) -> (result: Result<TransactionContext<'a>, BadInput>)
        ensures
            match result {
                Ok(context) => {
                    &&& context_fault(*transaction) is None
                    &&& context.signature@ == base58_text(transaction.signatures@[0]@)
                    &&& pubkey_views(context.accounts@) == resolved_keys(*transaction)
                    &&& pubkey_views(context.signers@) == resolved_keys(*transaction).take(
                        transaction.num_required_signatures as int,
                    )
                    &&& *context.pre_token_balances == transaction.meta->0.pre_token_balances
                    &&& *context.post_token_balances == transaction.meta->0.post_token_balances
                },
                Err(kind) => context_fault(*transaction) == Some(kind),
            },
    {
        let meta = match &transaction.meta {
            Some(meta) => meta,
            None => {
                return Err(BadInput::MissingMeta);
            },
        };
        if transaction.signatures.len() == 0 {
            return Err(BadInput::MissingSignature);
        }
        let accounts = match resolved_accounts(transaction) {
            Ok(accounts) => accounts,
            Err(kind) => {
                return Err(kind);
            },
        };
        if transaction.num_required_signatures as usize > transaction.account_keys.len() {
            return Err(BadInput::InconsistentAccounts);
        }
        let signature = base58_encode(transaction.signatures[0].as_slice());
        let mut signers: Vec<Pubkey> = Vec::new();
        let count = transaction.num_required_signatures as usize;
        assert(pubkey_views(accounts@).len() == accounts@.len());
        let mut i: usize = 0;
        while i < count
            invariant
                i <= count <= accounts@.len(),
                signers@ == accounts@.take(i as int),
            decreases count - i,
        {
            signers.push(accounts[i]);
            i += 1;
        }
        Ok(
            TransactionContext {
                signature,
                accounts,
                signers,
                pre_token_balances: &meta.pre_token_balances,
                post_token_balances: &meta.post_token_balances,
            },
        )
    }

    /// Looks up the token account at an account index, with its balances
    /// before and after the transaction.
    pub fn token_account(&self, account_index: u32) -> (account: Option<TokenAccount>)
        ensures
            match account {
                Some(a) => token_account_at(
                    self.pre_token_balances@,
                    self.post_token_balances@,
                    account_index,
                ) == Some(a@),
                None => token_account_at(
                    self.pre_token_balances@,
                    self.post_token_balances@,
                    account_index,
                ) is None,
            },
    {
        let before = find_balance(self.pre_token_balances, account_index);
        let after = find_balance(self.post_token_balances, account_index);
        let post_balance = match after {
            Some(j) => Some(self.post_token_balances[j].amount),
            None => None,
        };
        match before {
            Some(i) => {
                let record = &self.pre_token_balances[i];
                Some(
                    TokenAccount {
                        account_index,
                        mint: record.mint.clone(),
                        owner: record.owner.clone(),
                        pre_balance: Some(record.amount),
                        post_balance,
                    },
                )
            },
            None => match after {
                Some(j) => {
                    let record = &self.post_token_balances[j];
                    Some(
                        TokenAccount {
                            account_index,
                            mint: record.mint.clone(),
                            owner: record.owner.clone(),
                            pre_balance: None,
                            post_balance,
                        },
                    )
                },
                None => None,
            },
        }
    }
}

} // verus!
