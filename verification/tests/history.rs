use balances::engine::Engine;
use balances::input::{Tx, TxDeposit, TxKind, TxWithdrawal};
use balances::output::Account;
use balances::types::{ClientId, PositiveAmount, TxId};

fn dep(client: u16, tx: u32, bits: i64) -> Tx {
    Tx {
        client_id: ClientId(client),
        tx_id: TxId(tx),
        kind: TxKind::Deposit(TxDeposit { amount_deposited: PositiveAmount::new(bits).unwrap() }),
    }
}

fn wd(client: u16, tx: u32, bits: i64) -> Tx {
    Tx {
        client_id: ClientId(client),
        tx_id: TxId(tx),
        kind: TxKind::Withdrawal(TxWithdrawal { amount_withdrawn: PositiveAmount::new(bits).unwrap() }),
    }
}

fn other(client: u16, tx: u32, kind: TxKind) -> Tx {
    Tx { client_id: ClientId(client), tx_id: TxId(tx), kind }
}

fn history() -> Vec<Tx> {
    vec![
        dep(1, 1, 500),
        dep(2, 2, 300),
        wd(1, 3, 200),
        other(1, 1, TxKind::Dispute),
        dep(2, 4, 100),
        other(2, 1, TxKind::Dispute),
        wd(2, 5, 1000),
        other(2, 2, TxKind::Dispute),
        other(2, 2, TxKind::Resolve),
        dep(1, 6, 50),
        other(1, 1, TxKind::Chargeback),
        wd(1, 7, 10),
        other(2, 4, TxKind::Dispute),
    ]
}

fn outcomes(engine: &mut Engine, txs: &[Tx]) -> Vec<(u32, bool)> {
    txs.iter().map(|tx| (tx.tx_id.0, engine.process_tx(*tx).is_ok())).collect()
}

#[test]
fn figures_follow_the_accepted_history() {
    let mut engine = Engine::new();
    let got = outcomes(&mut engine, &history());
    let accepted: Vec<bool> = got.iter().map(|(_, ok)| *ok).collect();
    assert_eq!(
        accepted,
        vec![true, true, true, true, true, false, false, true, true, true, true, false, true]
    );
    // Client 1: deposits 500 + 50, withdrawal 200, deposit 1 charged back: total 350 - 500 = -150.
    assert_eq!(
        engine.account(ClientId(1)),
        Some(Account { client_id: ClientId(1), available: -150, held: 0, total: -150, is_locked: true })
    );
    // Client 2: deposits 300 + 100, deposit 4 disputed and not resolved.
    assert_eq!(
        engine.account(ClientId(2)),
        Some(Account { client_id: ClientId(2), available: 300, held: 100, total: 400, is_locked: false })
    );
}

#[test]
fn one_clients_transactions_alone_give_the_same_account() {
    let all = history();
    let mut full = Engine::new();
    let full_outcomes = outcomes(&mut full, &all);
    for client in [1u16, 2u16] {
        let own: Vec<Tx> = all.iter().copied().filter(|tx| tx.client_id.0 == client).collect();
        let mut shard = Engine::new();
        let shard_outcomes = outcomes(&mut shard, &own);
        let full_own: Vec<(u32, bool)> = all
            .iter()
            .zip(full_outcomes.iter())
            .filter(|(tx, _)| tx.client_id.0 == client)
            .map(|(_, o)| *o)
            .collect();
        assert_eq!(shard_outcomes, full_own);
        assert_eq!(shard.account(ClientId(client)), full.account(ClientId(client)));
    }
}
