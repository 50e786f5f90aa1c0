use freetrade::decimal::Decimal;
use freetrade::record::{
    ConvertError, FieldName, OrderDirection, TransactionKind, TransactionRecord,
};
use freetrade::timestamp::Timestamp;

fn dec(negative: bool, mantissa: u64, scale: u8) -> Decimal {
    Decimal::new(negative, mantissa, scale)
}

fn past_date() -> Timestamp {
    Timestamp { year: 2020, month: 1, day: 2, hour: 3, minute: 4, second: 5 }
}

fn reference_now() -> Timestamp {
    Timestamp { year: 2026, month: 1, day: 2, hour: 3, minute: 4, second: 5 }
}

#[test]
fn test_format_order_buy() {
    let date = past_date();
    let now = reference_now();
    let mut record = TransactionRecord {
        kind: TransactionKind::Order,
        timestamp: date,
        total_amount: Some(dec(false, 9015, 2)),
        price_per_share: Some(dec(false, 30, 0)),
        order_direction: Some(OrderDirection::Buy),
        ticker: Some("FOO".into()),
        quantity: Some(dec(false, 3, 0)),
        fx_fee_amount: Some(dec(false, 15, 2)),
        stamp_duty: None,
    };
    let expected = r#"2020-01-02 * "Buy FOO"
    Assets:UK:Freetrade:SIPP:FOO 3 FOO {30 GBP}
    Expenses:UK:Freetrade:SIPP:Fees 0.15 GBP
    Assets:UK:Freetrade:SIPP:Checking -90.15 GBP
"#;
    let buf = record.format("SIPP", &now).expect("valid record");
    assert_eq!(buf, expected);

    // Ticker with invalid characters for beancount.
    record.ticker = Some("BAR.Z".into());
    let expected = r#"2020-01-02 * "Buy BAR.Z"
    Assets:UK:Freetrade:SIPP:BARZ 3 BAR.Z {30 GBP}
    Expenses:UK:Freetrade:SIPP:Fees 0.15 GBP
    Assets:UK:Freetrade:SIPP:Checking -90.15 GBP
"#;
    let buf = record.format("SIPP", &now).expect("valid record");
    assert_eq!(buf, expected);

    // Future date, no FX fees, and stamp duty.
    let date = Timestamp { year: 2050, month: 1, day: 2, hour: 3, minute: 4, second: 5 };
    let record = TransactionRecord {
        kind: TransactionKind::Order,
        timestamp: date,
        total_amount: Some(dec(false, 9219, 2)),
        price_per_share: Some(dec(false, 30, 0)),
        order_direction: Some(OrderDirection::Buy),
        ticker: Some("FOO".into()),
        quantity: Some(dec(false, 3, 0)),
        fx_fee_amount: None,
        stamp_duty: Some(dec(false, 219, 2)),
    };
    let expected = r#"2050-01-02 ! "Buy FOO"
    Assets:UK:Freetrade:SIPP:FOO 3 FOO {30 GBP}
    Expenses:UK:Freetrade:SIPP:StampDuty 2.19 GBP
    Assets:UK:Freetrade:SIPP:Checking -92.19 GBP
"#;
    let buf = record.format("SIPP", &now).expect("valid record");
    assert_eq!(buf, expected);
}

#[test]
fn test_format_order_sell() {
    let date = past_date();
    let now = reference_now();
    let record = TransactionRecord {
        kind: TransactionKind::Order,
        timestamp: date,
        total_amount: Some(dec(false, 90, 0)),
        price_per_share: Some(dec(false, 30, 0)),
        order_direction: Some(OrderDirection::Sell),
        ticker: Some("FOO".into()),
        quantity: Some(dec(false, 3, 0)),
        fx_fee_amount: None,
        stamp_duty: Some(dec(false, 0, 0)),
    };
    let expected = r#"2020-01-02 * "Sell FOO"
    Assets:UK:Freetrade:SIPP:FOO -3 FOO {30 GBP}
    Assets:UK:Freetrade:SIPP:Checking 90 GBP
"#;
    let buf = record.format("SIPP", &now).expect("valid record");
    assert_eq!(buf, expected);

    // Single char ticker
    let record = TransactionRecord {
        kind: TransactionKind::Order,
        timestamp: date,
        total_amount: Some(dec(false, 90, 0)),
        price_per_share: Some(dec(false, 30, 0)),
        order_direction: Some(OrderDirection::Sell),
        ticker: Some("F".into()),
        quantity: Some(dec(false, 3, 0)),
        fx_fee_amount: None,
        stamp_duty: Some(dec(false, 0, 0)),
    };
    let expected = r#"2020-01-02 * "Sell F"
    Assets:UK:Freetrade:SIPP:F -3 FF {30 GBP}
    Assets:UK:Freetrade:SIPP:Checking 90 GBP
"#;
    let buf = record.format("SIPP", &now).expect("valid record");
    assert_eq!(buf, expected);
}

#[test]
fn test_format_top_up() {
    let date = past_date();
    let now = reference_now();
    let record = TransactionRecord {
        kind: TransactionKind::TopUp,
        timestamp: date,
        total_amount: Some(dec(false, 255, 1)),
        price_per_share: None,
        order_direction: None,
        ticker: None,
        quantity: None,
        fx_fee_amount: None,
        stamp_duty: None,
    };

    let expected = r#"2020-01-02 * "Top Up"
    Assets:UK:Freetrade:SIPP:Checking 25.5 GBP
    Income:UK:Freetrade:SIPP:TopUp -25.5 GBP
"#;
    let buf = record.format("SIPP", &now).expect("valid record");
    assert_eq!(buf, expected);
}

#[test]
fn test_format_tax_relief() {
    let date = past_date();
    let now = reference_now();
    let record = TransactionRecord {
        kind: TransactionKind::TaxRelief,
        timestamp: date,
        total_amount: Some(dec(false, 355, 1)),
        price_per_share: None,
        order_direction: None,
        ticker: None,
        quantity: None,
        fx_fee_amount: None,
        stamp_duty: None,
    };

    let expected = r#"2020-01-02 * "Tax Relief"
    Assets:UK:Freetrade:SIPP:Checking 35.5 GBP
    Income:UK:Freetrade:SIPP:TaxRelief -35.5 GBP
"#;
    let buf = record.format("SIPP", &now).expect("valid record");
    assert_eq!(buf, expected);
}

#[test]
fn test_format_interest() {
    let date = past_date();
    let now = reference_now();
    let record = TransactionRecord {
        kind: TransactionKind::InterestFromCash,
        timestamp: date,
        total_amount: Some(dec(false, 55, 1)),
        price_per_share: None,
        order_direction: None,
        ticker: None,
        quantity: None,
        fx_fee_amount: None,
        stamp_duty: None,
    };

    let expected = r#"2020-01-02 * "Interest from cash"
    Assets:UK:Freetrade:SIPP:Checking 5.5 GBP
    Income:UK:Freetrade:SIPP:Interest -5.5 GBP
"#;
    let buf = record.format("SIPP", &now).expect("valid record");
    assert_eq!(buf, expected);
}

#[test]
fn test_format_dividend() {
    let date = past_date();
    let now = reference_now();
    let record = TransactionRecord {
        kind: TransactionKind::Dividend,
        timestamp: date,
        total_amount: Some(dec(false, 255, 1)),
        price_per_share: None,
        order_direction: None,
        ticker: Some("ABC.V".into()),
        quantity: None,
        fx_fee_amount: None,
        stamp_duty: None,
    };

    let expected = r#"2020-01-02 * "Dividend"
    Assets:UK:Freetrade:SIPP:Checking 25.5 GBP
    Income:UK:Freetrade:SIPP:ABCV:Dividend -25.5 GBP
"#;
    let buf = record.format("SIPP", &now).expect("valid record");
    assert_eq!(buf, expected);

    // Single char ticker
    let record = TransactionRecord {
        kind: TransactionKind::Dividend,
        timestamp: date,
        total_amount: Some(dec(false, 255, 1)),
        price_per_share: None,
        order_direction: None,
        ticker: Some("A".into()),
        quantity: None,
        fx_fee_amount: None,
        stamp_duty: None,
    };

    let expected = r#"2020-01-02 * "Dividend"
    Assets:UK:Freetrade:SIPP:Checking 25.5 GBP
    Income:UK:Freetrade:SIPP:A:Dividend -25.5 GBP
"#;
    let buf = record.format("SIPP", &now).expect("valid record");
    assert_eq!(buf, expected);
}

#[test]
fn test_empty_kinds_produce_nothing() {
    let now = reference_now();
    for kind in [
        TransactionKind::MonthlyStatement,
        TransactionKind::SippAnnualStatement,
        TransactionKind::SippPresaleIllustration,
    ] {
        let record = TransactionRecord {
            kind,
            timestamp: past_date(),
            total_amount: Some(dec(false, 255, 1)),
            price_per_share: None,
            order_direction: None,
            ticker: None,
            quantity: None,
            fx_fee_amount: None,
            stamp_duty: None,
        };
        let buf = record.format("SIPP", &now).expect("valid record");
        assert_eq!(buf, "");
    }
}

#[test]
fn test_format_is_idempotent_at_same_instant() {
    let now = reference_now();
    let record = TransactionRecord {
        kind: TransactionKind::Order,
        timestamp: past_date(),
        total_amount: Some(dec(false, 9015, 2)),
        price_per_share: Some(dec(false, 30, 0)),
        order_direction: Some(OrderDirection::Buy),
        ticker: Some("FOO".into()),
        quantity: Some(dec(false, 3, 0)),
        fx_fee_amount: Some(dec(false, 15, 2)),
        stamp_duty: None,
    };
    let first = record.format("SIPP", &now).expect("valid record");
    let second = record.format("SIPP", &now).expect("valid record");
    assert_eq!(first, second);
}

#[test]
fn test_credit_postings_balance() {
    let now = reference_now();
    let record = TransactionRecord {
        kind: TransactionKind::TopUp,
        timestamp: past_date(),
        total_amount: Some(dec(false, 255, 1)),
        price_per_share: None,
        order_direction: None,
        ticker: None,
        quantity: None,
        fx_fee_amount: None,
        stamp_duty: None,
    };
    let buf = record.format("SIPP", &now).expect("valid record");
    // The two legs carry the same magnitude with opposite signs.
    assert!(buf.contains(" 25.5 GBP\n"));
    assert!(buf.contains(" -25.5 GBP\n"));
}

#[test]
fn test_status_marker_future_is_pending() {
    let now = reference_now();
    let future = Timestamp { year: 2026, month: 1, day: 2, hour: 3, minute: 4, second: 6 };
    let record = TransactionRecord {
        kind: TransactionKind::TopUp,
        timestamp: future,
        total_amount: Some(dec(false, 255, 1)),
        price_per_share: None,
        order_direction: None,
        ticker: None,
        quantity: None,
        fx_fee_amount: None,
        stamp_duty: None,
    };
    let buf = record.format("SIPP", &now).expect("valid record");
    assert!(buf.starts_with("2026-01-02 ! "));

    // Exactly the reference instant counts as cleared.
    let record = TransactionRecord { timestamp: now, ..record };
    let buf = record.format("SIPP", &now).expect("valid record");
    assert!(buf.starts_with("2026-01-02 * "));
}

#[test]
fn test_stamp_duty_of_zero_is_suppressed() {
    let now = reference_now();
    let mut record = TransactionRecord {
        kind: TransactionKind::Order,
        timestamp: past_date(),
        total_amount: Some(dec(false, 9219, 2)),
        price_per_share: Some(dec(false, 30, 0)),
        order_direction: Some(OrderDirection::Buy),
        ticker: Some("FOO".into()),
        quantity: Some(dec(false, 3, 0)),
        fx_fee_amount: None,
        stamp_duty: Some(dec(false, 0, 1)),
    };
    let buf = record.format("SIPP", &now).expect("valid record");
    assert!(!buf.contains("StampDuty"));

    record.stamp_duty = Some(dec(false, 219, 2));
    let buf = record.format("SIPP", &now).expect("valid record");
    assert!(buf.contains("    Expenses:UK:Freetrade:SIPP:StampDuty 2.19 GBP\n"));
}

#[test]
fn test_missing_fields_are_fatal() {
    let now = reference_now();
    let order = TransactionRecord {
        kind: TransactionKind::Order,
        timestamp: past_date(),
        total_amount: Some(dec(false, 9015, 2)),
        price_per_share: Some(dec(false, 30, 0)),
        order_direction: Some(OrderDirection::Buy),
        ticker: Some("FOO".into()),
        quantity: Some(dec(false, 3, 0)),
        fx_fee_amount: None,
        stamp_duty: None,
    };

    let record = TransactionRecord { order_direction: None, ..clone_record(&order) };
    assert_eq!(
        record.format("SIPP", &now),
        Err(ConvertError::InvalidFieldCombination(TransactionKind::Order)),
    );

    let record = TransactionRecord { ticker: None, ..clone_record(&order) };
    assert_eq!(
        record.format("SIPP", &now),
        Err(ConvertError::MissingRequiredField(TransactionKind::Order, FieldName::Ticker)),
    );

    let record = TransactionRecord { quantity: None, ..clone_record(&order) };
    assert_eq!(
        record.format("SIPP", &now),
        Err(ConvertError::MissingRequiredField(TransactionKind::Order, FieldName::Quantity)),
    );

    let record = TransactionRecord { price_per_share: None, ..clone_record(&order) };
    assert_eq!(
        record.format("SIPP", &now),
        Err(ConvertError::MissingRequiredField(
            TransactionKind::Order,
            FieldName::PricePerShare
        )),
    );

    let record = TransactionRecord { total_amount: None, ..clone_record(&order) };
    assert_eq!(
        record.format("SIPP", &now),
        Err(ConvertError::MissingRequiredField(TransactionKind::Order, FieldName::TotalAmount)),
    );

    let record = TransactionRecord {
        kind: TransactionKind::TopUp,
        total_amount: None,
        ..clone_record(&order)
    };
    assert_eq!(
        record.format("SIPP", &now),
        Err(ConvertError::MissingRequiredField(TransactionKind::TopUp, FieldName::TotalAmount)),
    );

    let record = TransactionRecord {
        kind: TransactionKind::Dividend,
        ticker: None,
        ..clone_record(&order)
    };
    assert_eq!(
        record.format("SIPP", &now),
        Err(ConvertError::MissingRequiredField(TransactionKind::Dividend, FieldName::Ticker)),
    );
}

#[test]
fn test_format_now_past_record_is_cleared() {
    // The machine clock is well past this record's date, whatever it reads.
    let record = TransactionRecord {
        kind: TransactionKind::TopUp,
        timestamp: past_date(),
        total_amount: Some(dec(false, 255, 1)),
        price_per_share: None,
        order_direction: None,
        ticker: None,
        quantity: None,
        fx_fee_amount: None,
        stamp_duty: None,
    };
    let buf = record.format_now("SIPP").expect("valid record");
    assert!(buf.starts_with("2020-01-02 * "));
}

fn clone_record(r: &TransactionRecord) -> TransactionRecord {
    TransactionRecord {
        kind: r.kind,
        timestamp: r.timestamp,
        total_amount: r.total_amount,
        price_per_share: r.price_per_share,
        order_direction: r.order_direction,
        ticker: r.ticker.clone(),
        quantity: r.quantity,
        fx_fee_amount: r.fx_fee_amount,
        stamp_duty: r.stamp_duty,
    }
}
