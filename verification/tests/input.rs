use balances::input::{Tx, TxKind, TxRecordError, TxType};
use balances::types::{AmountError, ClientId, PositiveAmount, TxId};

#[test]
fn amounts_are_read_exactly() {
    assert_eq!(PositiveAmount::from_str_exact("1.5").unwrap().bits(), 15000);
    assert_eq!(PositiveAmount::from_str_exact("2").unwrap().bits(), 20000);
    assert_eq!(PositiveAmount::from_str_exact("0.0001").unwrap().bits(), 1);
    assert_eq!(PositiveAmount::from_str_exact("12.3456").unwrap().bits(), 123456);
}

#[test]
fn too_precise_or_malformed_amounts_are_refused() {
    assert!(matches!(PositiveAmount::from_str_exact("1.23456"), Err(AmountError::Unparsable(_))));
    assert!(matches!(PositiveAmount::from_str_exact("abc"), Err(AmountError::Unparsable(_))));
    assert!(matches!(PositiveAmount::from_str_exact(""), Err(AmountError::Unparsable(_))));
}

#[test]
fn non_positive_amounts_are_refused() {
    assert!(matches!(PositiveAmount::from_str_exact("0"), Err(AmountError::NotPositive(0))));
    assert!(matches!(PositiveAmount::from_str_exact("-1.5"), Err(AmountError::NotPositive(-15000))));
    assert!(PositiveAmount::new(0).is_none());
    assert_eq!(PositiveAmount::new(7).unwrap().bits(), 7);
}

#[test]
fn deposit_record_makes_deposit() {
    let tx = Tx::from_record(TxType::Deposit, ClientId(3), TxId(9), Some("1.25")).unwrap();
    assert_eq!(tx.client_id, ClientId(3));
    assert_eq!(tx.tx_id, TxId(9));
    match tx.kind {
        TxKind::Deposit(d) => assert_eq!(d.amount_deposited.bits(), 12500),
        other => panic!("unexpected kind {:?}", other),
    }
}

#[test]
fn withdrawal_record_makes_withdrawal() {
    let tx = Tx::from_record(TxType::Withdrawal, ClientId(1), TxId(2), Some("3")).unwrap();
    match tx.kind {
        TxKind::Withdrawal(w) => assert_eq!(w.amount_withdrawn.bits(), 30000),
        other => panic!("unexpected kind {:?}", other),
    }
}

#[test]
fn missing_amount_is_refused() {
    assert!(matches!(
        Tx::from_record(TxType::Deposit, ClientId(1), TxId(1), None),
        Err(TxRecordError::MissingAmount)
    ));
    assert!(matches!(
        Tx::from_record(TxType::Withdrawal, ClientId(1), TxId(1), None),
        Err(TxRecordError::MissingAmount)
    ));
}

#[test]
fn bad_amount_is_refused_whatever_the_kind() {
    assert!(matches!(
        Tx::from_record(TxType::Deposit, ClientId(1), TxId(1), Some("1.00001")),
        Err(TxRecordError::Amount(AmountError::Unparsable(_)))
    ));
    assert!(matches!(
        Tx::from_record(TxType::Dispute, ClientId(1), TxId(1), Some("-2")),
        Err(TxRecordError::Amount(AmountError::NotPositive(-20000)))
    ));
}

#[test]
fn dispute_records_ignore_amount() {
    let tx = Tx::from_record(TxType::Dispute, ClientId(1), TxId(4), None).unwrap();
    assert!(matches!(tx.kind, TxKind::Dispute));
    let tx = Tx::from_record(TxType::Resolve, ClientId(1), TxId(4), Some("2.0")).unwrap();
    assert!(matches!(tx.kind, TxKind::Resolve));
    let tx = Tx::from_record(TxType::Chargeback, ClientId(1), TxId(4), None).unwrap();
    assert!(matches!(tx.kind, TxKind::Chargeback));
    assert_eq!(tx.tx_id, TxId(4));
}

#[test]
fn from_parts_needs_amount_for_deposits() {
    let a = PositiveAmount::new(5).unwrap();
    assert!(matches!(
        Tx::from_parts(TxType::Withdrawal, ClientId(1), TxId(1), None),
        Err(TxRecordError::MissingAmount)
    ));
    let tx = Tx::from_parts(TxType::Deposit, ClientId(1), TxId(1), Some(a)).unwrap();
    assert!(matches!(tx.kind, TxKind::Deposit(d) if d.amount_deposited.bits() == 5));
    let tx = Tx::from_parts(TxType::Chargeback, ClientId(1), TxId(1), Some(a)).unwrap();
    assert!(matches!(tx.kind, TxKind::Chargeback));
}
