use solana_rows::block::{TokenBalance, Transaction, TransactionMeta};
use solana_rows::error::BadInput;
use solana_rows::pubkey::Pubkey;
use solana_rows::transaction::{resolved_accounts, TokenAccount, TransactionContext};

fn balance(account_index: u32, mint: &str, owner: &str, amount: u64) -> TokenBalance {
    TokenBalance { account_index, mint: mint.to_string(), owner: owner.to_string(), amount, decimals: 6 }
}

fn sample() -> Transaction {
    Transaction {
        signatures: vec![vec![150, 255, 106], vec![1, 2, 3]],
        account_keys: vec![vec![1; 32], vec![2; 32], vec![3; 32]],
        num_required_signatures: 2,
        meta: Some(TransactionMeta {
            err: None,
            loaded_writable_addresses: vec![vec![4; 32]],
            loaded_readonly_addresses: vec![vec![5; 32], vec![6; 32]],
            pre_token_balances: vec![balance(1, "mint-a", "owner-a", 10), balance(3, "mint-b", "owner-b", 0)],
            post_token_balances: vec![
                balance(1, "mint-a", "owner-a", 7),
                balance(4, "mint-c", "owner-c", 3),
            ],
        }),
        instructions: vec![],
    }
}

#[test]
fn context_resolves_signature_accounts_and_signers() {
    let tx = sample();
    let context = TransactionContext::build(&tx).unwrap();
    assert_eq!(context.signature, "sig1");
    let expected: Vec<Pubkey> = (1..=6u8).map(|n| Pubkey::new([n; 32])).collect();
    assert_eq!(context.accounts, expected);
    assert_eq!(context.signers, expected[..2].to_vec());
    assert_eq!(resolved_accounts(&tx).unwrap(), expected);
}

#[test]
fn context_without_signers() {
    let mut tx = sample();
    tx.num_required_signatures = 0;
    let context = TransactionContext::build(&tx).unwrap();
    assert!(context.signers.is_empty());
}

#[test]
fn every_account_key_may_sign_but_no_loaded_address() {
    let mut tx = sample();
    tx.num_required_signatures = 3;
    assert_eq!(TransactionContext::build(&tx).unwrap().signers.len(), 3);
    tx.num_required_signatures = 4;
    assert_eq!(TransactionContext::build(&tx).unwrap_err(), BadInput::InconsistentAccounts);
}

#[test]
fn context_of_a_failed_transaction_can_still_be_built() {
    let mut tx = sample();
    tx.meta.as_mut().unwrap().err = Some(vec![7]);
    assert!(TransactionContext::build(&tx).is_ok());
}

#[test]
fn token_accounts_are_found_by_account_index() {
    let tx = sample();
    let context = TransactionContext::build(&tx).unwrap();
    assert_eq!(
        context.token_account(1),
        Some(TokenAccount {
            account_index: 1,
            mint: "mint-a".to_string(),
            owner: "owner-a".to_string(),
            pre_balance: Some(10),
            post_balance: Some(7),
        })
    );
    assert_eq!(
        context.token_account(3),
        Some(TokenAccount {
            account_index: 3,
            mint: "mint-b".to_string(),
            owner: "owner-b".to_string(),
            pre_balance: Some(0),
            post_balance: None,
        })
    );
    assert_eq!(
        context.token_account(4),
        Some(TokenAccount {
            account_index: 4,
            mint: "mint-c".to_string(),
            owner: "owner-c".to_string(),
            pre_balance: None,
            post_balance: Some(3),
        })
    );
    assert_eq!(context.token_account(0), None);
    assert_eq!(context.token_account(2), None);
    assert_eq!(context.token_account(99), None);
}

#[test]
fn first_balance_record_of_an_account_counts() {
    let mut tx = sample();
    let meta = tx.meta.as_mut().unwrap();
    meta.pre_token_balances.push(balance(1, "mint-z", "owner-z", 99));
    meta.post_token_balances.insert(0, balance(1, "mint-y", "owner-y", 55));
    let context = TransactionContext::build(&tx).unwrap();
    let account = context.token_account(1).unwrap();
    assert_eq!(account.mint, "mint-a");
    assert_eq!(account.pre_balance, Some(10));
    assert_eq!(account.post_balance, Some(55));
}

#[test]
fn context_without_meta_is_refused() {
    let mut tx = sample();
    tx.meta = None;
    assert_eq!(TransactionContext::build(&tx).unwrap_err(), BadInput::MissingMeta);
    assert_eq!(resolved_accounts(&tx).unwrap_err(), BadInput::MissingMeta);
}

#[test]
fn context_without_signature_is_refused() {
    let mut tx = sample();
    tx.signatures.clear();
    assert_eq!(TransactionContext::build(&tx).unwrap_err(), BadInput::MissingSignature);
    // The account table is looked at after the signature.
    tx.account_keys[0].clear();
    assert_eq!(TransactionContext::build(&tx).unwrap_err(), BadInput::MissingSignature);
}

#[test]
fn context_with_an_address_of_the_wrong_length_is_refused() {
    for at in 0..3 {
        let mut tx = sample();
        tx.account_keys[at].push(0);
        assert_eq!(TransactionContext::build(&tx).unwrap_err(), BadInput::InconsistentAccounts);
        assert_eq!(resolved_accounts(&tx).unwrap_err(), BadInput::InconsistentAccounts);
    }
    let mut tx = sample();
    tx.meta.as_mut().unwrap().loaded_writable_addresses[0].pop();
    assert_eq!(TransactionContext::build(&tx).unwrap_err(), BadInput::InconsistentAccounts);
    let mut tx = sample();
    tx.meta.as_mut().unwrap().loaded_readonly_addresses[1] = vec![];
    assert_eq!(TransactionContext::build(&tx).unwrap_err(), BadInput::InconsistentAccounts);
}

#[test]
fn empty_first_signature_reads_as_empty_text() {
    let mut tx = sample();
    tx.signatures[0].clear();
    assert_eq!(TransactionContext::build(&tx).unwrap().signature, "");
}
