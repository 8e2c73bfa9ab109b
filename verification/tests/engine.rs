use balances::engine::errors::{
    AccountLocked, DuplicateTxId, ProcessChargebackError, ProcessDepositError,
    ProcessDisputeError, ProcessResolveError, ProcessTxError, ProcessWithdrawalError,
    UnknownTxId,
};
use balances::engine::Engine;
use balances::input::{Tx, TxDeposit, TxKind, TxWithdrawal};
use balances::output::Account;
use balances::types::{ClientId, PositiveAmount, TxId};

fn amount(text: &str) -> PositiveAmount {
    PositiveAmount::from_str_exact(text).unwrap()
}

fn d(client_id: u16, tx_id: u32, amount_deposited: &str) -> Tx {
    Tx {
        client_id: ClientId(client_id),
        tx_id: TxId(tx_id),
        kind: TxKind::Deposit(TxDeposit { amount_deposited: amount(amount_deposited) }),
    }
}

fn w(client_id: u16, tx_id: u32, amount_withdrawn: &str) -> Tx {
    Tx {
        client_id: ClientId(client_id),
        tx_id: TxId(tx_id),
        kind: TxKind::Withdrawal(TxWithdrawal { amount_withdrawn: amount(amount_withdrawn) }),
    }
}

fn di(client_id: u16, tx_id: u32) -> Tx {
    Tx { client_id: ClientId(client_id), tx_id: TxId(tx_id), kind: TxKind::Dispute }
}

fn re(client_id: u16, tx_id: u32) -> Tx {
    Tx { client_id: ClientId(client_id), tx_id: TxId(tx_id), kind: TxKind::Resolve }
}

fn cb(client_id: u16, tx_id: u32) -> Tx {
    Tx { client_id: ClientId(client_id), tx_id: TxId(tx_id), kind: TxKind::Chargeback }
}

fn account(client: u16, available: i64, held: i64, total: i64, is_locked: bool) -> Account {
    Account { client_id: ClientId(client), available, held, total, is_locked }
}

fn sorted_accounts(engine: &Engine) -> Vec<Account> {
    let mut accounts = engine.accounts();
    accounts.sort_by_key(|a| a.client_id);
    accounts
}

fn run(engine: &mut Engine, txs: Vec<Tx>) {
    for tx in txs {
        assert!(engine.process_tx(tx).is_ok(), "{:?} was refused", tx);
    }
}

#[test]
fn process_transactions() {
    let engine = Engine::default();
    assert!(engine.accounts().is_empty());
    assert_eq!(engine.account(ClientId(1)), None);
}

#[test]
fn deposits_accumulate_per_client() {
    let mut engine = Engine::new();
    run(&mut engine, vec![d(1, 1, "1.5"), d(2, 2, "2.0"), d(1, 3, "2.25")]);
    assert_eq!(
        sorted_accounts(&engine),
        vec![account(1, 37500, 0, 37500, false), account(2, 20000, 0, 20000, false)]
    );
    assert_eq!(engine.account(ClientId(1)), Some(account(1, 37500, 0, 37500, false)));
}

#[test]
fn duplicate_tx_ids_are_refused() {
    let mut engine = Engine::new();
    run(&mut engine, vec![d(1, 1, "1.0"), w(1, 2, "0.5")]);
    let r = engine.process_tx(d(1, 1, "3.0"));
    assert!(matches!(
        r,
        Err(ProcessTxError::Deposit(ProcessDepositError::DuplicateTxId(DuplicateTxId(TxId(1)))))
    ));
    let r = engine.process_tx(w(2, 2, "0.1"));
    assert!(matches!(
        r,
        Err(ProcessTxError::Withdrawal(ProcessWithdrawalError::DuplicateTxId(DuplicateTxId(
            TxId(2)
        ))))
    ));
    assert_eq!(sorted_accounts(&engine), vec![account(1, 5000, 0, 5000, false)]);
}

#[test]
fn withdrawal_needs_available_funds() {
    let mut engine = Engine::new();
    run(&mut engine, vec![d(1, 1, "1.0")]);
    let r = engine.process_tx(w(1, 2, "1.0001"));
    assert!(matches!(
        r,
        Err(ProcessTxError::Withdrawal(ProcessWithdrawalError::InsufficientFunds(ClientId(1), 10000)))
    ));
    let r = engine.process_tx(w(7, 3, "1.0"));
    assert!(matches!(
        r,
        Err(ProcessTxError::Withdrawal(ProcessWithdrawalError::InsufficientFunds(ClientId(7), 0)))
    ));
    run(&mut engine, vec![w(1, 4, "0.25")]);
    assert_eq!(sorted_accounts(&engine), vec![account(1, 7500, 0, 7500, false)]);
}

#[test]
fn emptied_account_is_not_kept() {
    let mut engine = Engine::new();
    run(&mut engine, vec![d(1, 1, "1.0"), w(1, 2, "1.0")]);
    assert!(engine.accounts().is_empty());
    assert_eq!(engine.account(ClientId(1)), None);
}

#[test]
fn dispute_holds_and_resolve_releases() {
    let mut engine = Engine::new();
    run(&mut engine, vec![d(1, 1, "3.0"), d(1, 2, "1.0"), di(1, 1)]);
    assert_eq!(sorted_accounts(&engine), vec![account(1, 10000, 30000, 40000, false)]);
    run(&mut engine, vec![re(1, 1)]);
    assert_eq!(sorted_accounts(&engine), vec![account(1, 40000, 0, 40000, false)]);
    // A resolved deposit can be disputed again.
    run(&mut engine, vec![di(1, 1)]);
    assert_eq!(sorted_accounts(&engine), vec![account(1, 10000, 30000, 40000, false)]);
}

#[test]
fn held_funds_cannot_be_withdrawn() {
    let mut engine = Engine::new();
    run(&mut engine, vec![d(1, 1, "3.0"), di(1, 1)]);
    let r = engine.process_tx(w(1, 2, "1.0"));
    assert!(matches!(
        r,
        Err(ProcessTxError::Withdrawal(ProcessWithdrawalError::InsufficientFunds(ClientId(1), 0)))
    ));
}

#[test]
fn dispute_of_unknown_or_foreign_tx_is_refused() {
    let mut engine = Engine::new();
    run(&mut engine, vec![d(1, 1, "1.0")]);
    let r = engine.process_tx(di(1, 9));
    assert!(matches!(
        r,
        Err(ProcessTxError::Dispute(ProcessDisputeError::UnknownTxId(UnknownTxId(TxId(9)))))
    ));
    let r = engine.process_tx(di(2, 1));
    assert!(matches!(
        r,
        Err(ProcessTxError::Dispute(ProcessDisputeError::UnknownTxId(UnknownTxId(TxId(1)))))
    ));
    let r = engine.process_tx(re(1, 9));
    assert!(matches!(
        r,
        Err(ProcessTxError::Resolve(ProcessResolveError::UnknownTxId(UnknownTxId(TxId(9)))))
    ));
    let r = engine.process_tx(cb(2, 1));
    assert!(matches!(
        r,
        Err(ProcessTxError::Chargeback(ProcessChargebackError::UnknownTxId(UnknownTxId(TxId(1)))))
    ));
    assert_eq!(sorted_accounts(&engine), vec![account(1, 10000, 0, 10000, false)]);
}

#[test]
fn only_undisputed_deposits_can_be_disputed() {
    let mut engine = Engine::new();
    run(&mut engine, vec![d(1, 1, "2.0"), w(1, 2, "1.0"), di(1, 1)]);
    let r = engine.process_tx(di(1, 2));
    assert!(matches!(r, Err(ProcessTxError::Dispute(ProcessDisputeError::UnexpectedTxState(_)))));
    let r = engine.process_tx(di(1, 1));
    assert!(matches!(r, Err(ProcessTxError::Dispute(ProcessDisputeError::UnexpectedTxState(_)))));
}

#[test]
fn resolve_and_chargeback_need_a_dispute() {
    let mut engine = Engine::new();
    run(&mut engine, vec![d(1, 1, "2.0")]);
    let r = engine.process_tx(re(1, 1));
    assert!(matches!(r, Err(ProcessTxError::Resolve(ProcessResolveError::UnexpectedTxState(_)))));
    let r = engine.process_tx(cb(1, 1));
    assert!(matches!(
        r,
        Err(ProcessTxError::Chargeback(ProcessChargebackError::UnexpectedTxState(_)))
    ));
    assert_eq!(sorted_accounts(&engine), vec![account(1, 20000, 0, 20000, false)]);
}

#[test]
fn chargeback_locks_and_forgets() {
    let mut engine = Engine::new();
    run(&mut engine, vec![d(1, 1, "2.0"), d(1, 2, "1.0"), di(1, 1), cb(1, 1)]);
    assert_eq!(sorted_accounts(&engine), vec![account(1, 10000, 0, 10000, true)]);
    let r = engine.process_tx(w(1, 3, "0.5"));
    assert!(matches!(
        r,
        Err(ProcessTxError::Withdrawal(ProcessWithdrawalError::AccountLocked(AccountLocked(
            ClientId(1)
        ))))
    ));
    let r = engine.process_tx(di(1, 1));
    assert!(matches!(
        r,
        Err(ProcessTxError::Dispute(ProcessDisputeError::UnknownTxId(UnknownTxId(TxId(1)))))
    ));
    // Deposits into a locked account are still accepted, and disputes settle.
    run(&mut engine, vec![d(1, 4, "1.0"), di(1, 2), re(1, 2)]);
    assert_eq!(sorted_accounts(&engine), vec![account(1, 20000, 0, 20000, true)]);
}

#[test]
fn chargeback_after_withdrawal_leaves_negative_total() {
    let mut engine = Engine::new();
    run(&mut engine, vec![d(1, 1, "10.0"), w(1, 2, "10.0")]);
    assert!(engine.accounts().is_empty());
    run(&mut engine, vec![di(1, 1)]);
    assert_eq!(sorted_accounts(&engine), vec![account(1, -100000, 100000, 0, false)]);
    run(&mut engine, vec![cb(1, 1)]);
    assert_eq!(sorted_accounts(&engine), vec![account(1, -100000, 0, -100000, true)]);
}

#[test]
fn deposit_overflow_is_refused() {
    let mut engine = Engine::new();
    let max = PositiveAmount::new(i64::MAX).unwrap();
    let big = Tx { client_id: ClientId(1), tx_id: TxId(1), kind: TxKind::Deposit(TxDeposit { amount_deposited: max }) };
    run(&mut engine, vec![big]);
    let r = engine.process_tx(d(1, 2, "0.0001"));
    assert!(matches!(r, Err(ProcessTxError::Deposit(ProcessDepositError::Overflow(_)))));
    assert_eq!(sorted_accounts(&engine), vec![account(1, i64::MAX, 0, i64::MAX, false)]);
}

#[test]
fn dispute_overflow_is_refused() {
    let mut engine = Engine::new();
    let max = PositiveAmount::new(i64::MAX).unwrap();
    let big = |tx: u32| Tx { client_id: ClientId(1), tx_id: TxId(tx), kind: TxKind::Deposit(TxDeposit { amount_deposited: max }) };
    let big_w = Tx { client_id: ClientId(1), tx_id: TxId(2), kind: TxKind::Withdrawal(TxWithdrawal { amount_withdrawn: max }) };
    // The account is emptied in between, so both deposits fit; holding both would not.
    run(&mut engine, vec![big(1), big_w, big(3), di(1, 1)]);
    let r = engine.process_tx(di(1, 3));
    assert!(matches!(r, Err(ProcessTxError::Dispute(ProcessDisputeError::Overflow(_)))));
    assert_eq!(sorted_accounts(&engine), vec![account(1, 0, i64::MAX, i64::MAX, false)]);
}

#[test]
fn dispute_is_refused_when_available_would_underflow() {
    let mut engine = Engine::new();
    let max = PositiveAmount::new(i64::MAX).unwrap();
    let big = |tx: u32| Tx { client_id: ClientId(1), tx_id: TxId(tx), kind: TxKind::Deposit(TxDeposit { amount_deposited: max }) };
    let big_w = |tx: u32| Tx { client_id: ClientId(1), tx_id: TxId(tx), kind: TxKind::Withdrawal(TxWithdrawal { amount_withdrawn: max }) };
    run(&mut engine, vec![big(1), big_w(2), big(3), big_w(4), di(1, 1), cb(1, 1)]);
    assert_eq!(sorted_accounts(&engine), vec![account(1, -i64::MAX, 0, -i64::MAX, true)]);
    let r = engine.process_tx(di(1, 3));
    assert!(matches!(r, Err(ProcessTxError::Dispute(ProcessDisputeError::Overflow(_)))));
}

#[test]
fn deposit_overflow_is_judged_on_the_balance() {
    let mut engine = Engine::new();
    let amount = |bits: i64| PositiveAmount::new(bits).unwrap();
    run(&mut engine, vec![
        Tx { client_id: ClientId(1), tx_id: TxId(1), kind: TxKind::Deposit(TxDeposit { amount_deposited: amount(i64::MAX - 10) }) },
        Tx { client_id: ClientId(1), tx_id: TxId(2), kind: TxKind::Withdrawal(TxWithdrawal { amount_withdrawn: amount(i64::MAX - 20) }) },
        Tx { client_id: ClientId(1), tx_id: TxId(3), kind: TxKind::Deposit(TxDeposit { amount_deposited: amount(i64::MAX - 20) }) },
    ]);
    assert_eq!(sorted_accounts(&engine), vec![account(1, i64::MAX - 10, 0, i64::MAX - 10, false)]);
}

#[test]
fn large_deposit_can_be_disputed_again_and_again() {
    let mut engine = Engine::new();
    let big = PositiveAmount::new(5_000_000_000_000_000_000).unwrap();
    run(&mut engine, vec![Tx { client_id: ClientId(1), tx_id: TxId(1), kind: TxKind::Deposit(TxDeposit { amount_deposited: big }) }]);
    for _ in 0..5 {
        run(&mut engine, vec![di(1, 1), re(1, 1)]);
    }
    run(&mut engine, vec![di(1, 1)]);
    assert_eq!(
        sorted_accounts(&engine),
        vec![account(1, 0, 5_000_000_000_000_000_000, 5_000_000_000_000_000_000, false)]
    );
}

#[test]
fn refused_transaction_changes_nothing() {
    let mut engine = Engine::new();
    run(&mut engine, vec![d(1, 1, "5.0"), d(2, 2, "1.0"), di(2, 2)]);
    let before = sorted_accounts(&engine);
    for tx in [w(1, 3, "6.0"), d(2, 1, "1.0"), di(1, 2), re(1, 1), cb(1, 1)] {
        assert!(engine.process_tx(tx).is_err());
        assert_eq!(sorted_accounts(&engine), before);
    }
}

#[test]
fn other_accounts_are_untouched() {
    let mut engine = Engine::new();
    run(&mut engine, vec![d(1, 1, "5.0"), d(2, 2, "1.0")]);
    let other = engine.account(ClientId(2));
    run(&mut engine, vec![w(1, 3, "1.0"), di(1, 1), cb(1, 1)]);
    assert_eq!(engine.account(ClientId(2)), other);
}

#[test]
fn resolve_undoes_dispute() {
    let mut engine = Engine::new();
    run(&mut engine, vec![d(1, 1, "5.0"), w(1, 2, "4.0")]);
    let before = sorted_accounts(&engine);
    run(&mut engine, vec![di(1, 1), re(1, 1)]);
    assert_eq!(sorted_accounts(&engine), before);
}

#[test]
fn locked_account_stays_locked() {
    let mut engine = Engine::new();
    run(&mut engine, vec![d(1, 1, "1.0"), di(1, 1), cb(1, 1)]);
    assert_eq!(engine.account(ClientId(1)), Some(account(1, 0, 0, 0, true)));
    run(&mut engine, vec![d(1, 2, "1.0"), di(1, 2), cb(1, 2)]);
    assert_eq!(engine.account(ClientId(1)), Some(account(1, 0, 0, 0, true)));
}

#[test]
fn accounts_lists_each_client_once() {
    let mut engine = Engine::new();
    run(&mut engine, vec![d(3, 1, "1.0"), d(1, 2, "1.0"), d(2, 3, "1.0"), d(3, 4, "1.0")]);
    let accounts = sorted_accounts(&engine);
    let ids: Vec<u16> = accounts.iter().map(|a| a.client_id.0).collect();
    assert_eq!(ids, vec![1, 2, 3]);
    for a in accounts {
        assert_eq!(engine.account(a.client_id), Some(a));
        assert_eq!(a.total, a.available + a.held);
    }
}
