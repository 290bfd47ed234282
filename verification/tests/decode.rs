use row_decode::currency::{CurrencyModel, CurrencyType};
use row_decode::error::DecodeError;
use row_decode::row::{Column, ColumnValue, Row};
use row_decode::signal::{same_data_type, SignalModel};

fn text_col(name: &str, value: &str) -> Column {
    Column { name: name.to_string(), value: ColumnValue::Text(value.to_string()) }
}

fn int_col(name: &str, value: i32) -> Column {
    Column { name: name.to_string(), value: ColumnValue::Integer(value) }
}

fn currency_row() -> Row {
    Row {
        columns: vec![
            text_col("id", "USD"),
            int_col("precision", 2),
            int_col("iso4217", 840),
            text_col("name", "United States Dollar"),
            text_col("currency_type", "FIAT"),
        ],
    }
}

fn signal_row() -> Row {
    Row {
        columns: vec![
            text_col("data_type", "trend"),
            text_col("metadata", "source=x"),
            text_col("value", "1.23"),
            text_col("ts_event", "1700000000000000000"),
            text_col("ts_init", "1700000000000000500"),
        ],
    }
}

fn drop_column(row: Row, name: &str) -> Row {
    Row { columns: row.columns.into_iter().filter(|c| c.name != name).collect() }
}

#[test]
fn usd_row_decodes() {
    let model = CurrencyModel::from_row(&currency_row()).unwrap();
    let c = model.0;
    assert_eq!(c.code, "USD");
    assert_eq!(c.precision, 2u8);
    assert_eq!(c.iso4217, 840u16);
    assert_eq!(c.name, "United States Dollar");
    assert_eq!(c.currency_type, CurrencyType::Fiat);
}

#[test]
fn crypto_and_commodity_discriminants_decode() {
    let mut row = currency_row();
    row.columns[4] = text_col("currency_type", "CRYPTO");
    let c = CurrencyModel::from_row(&row).unwrap().0;
    assert_eq!(c.currency_type, CurrencyType::Crypto);

    row.columns[4] = text_col("currency_type", "COMMODITY_BACKED");
    let c = CurrencyModel::from_row(&row).unwrap().0;
    assert_eq!(c.currency_type, CurrencyType::CommodityBacked);
}

#[test]
fn currency_missing_column_is_named() {
    let row = drop_column(currency_row(), "name");
    let err = CurrencyModel::from_row(&row).unwrap_err();
    match err {
        DecodeError::ColumnMissing { ref column } => assert_eq!(column.as_str(), "name"),
        ref other => panic!("expected a missing-column error, got {:?}", other),
    }
}

#[test]
fn currency_type_mismatch_is_named() {
    let mut row = currency_row();
    row.columns[1] = text_col("precision", "2");
    let err = CurrencyModel::from_row(&row).unwrap_err();
    match err {
        DecodeError::TypeMismatch { ref column } => assert_eq!(column.as_str(), "precision"),
        ref other => panic!("expected a type-mismatch error, got {:?}", other),
    }
}

#[test]
fn unknown_discriminant_is_rejected() {
    let mut row = currency_row();
    row.columns[4] = text_col("currency_type", "METAL");
    let err = CurrencyModel::from_row(&row).unwrap_err();
    match err {
        DecodeError::ValueRejected { ref column } => assert_eq!(column.as_str(), "currency_type"),
        ref other => panic!("expected a rejected-value error, got {:?}", other),
    }
}

#[test]
fn first_failing_column_decides() {
    // `precision` is read before `name`, so its mismatch wins over the
    // missing `name` column.
    let mut row = drop_column(currency_row(), "name");
    row.columns[1] = text_col("precision", "2");
    let err = CurrencyModel::from_row(&row).unwrap_err();
    match err {
        DecodeError::TypeMismatch { ref column } => assert_eq!(column.as_str(), "precision"),
        ref other => panic!("expected a type-mismatch error, got {:?}", other),
    }
}

#[test]
fn first_column_of_a_name_wins() {
    let mut row = currency_row();
    row.columns.push(text_col("id", "EUR"));
    let c = CurrencyModel::from_row(&row).unwrap().0;
    assert_eq!(c.code, "USD");
}

#[test]
fn narrowing_truncates_out_of_range_integers() {
    let mut row = currency_row();
    row.columns[1] = int_col("precision", 300);
    row.columns[2] = int_col("iso4217", 70000);
    let c = CurrencyModel::from_row(&row).unwrap().0;
    assert_eq!(c.precision, 300i32 as u8);
    assert_eq!(c.precision, 44u8);
    assert_eq!(c.iso4217, 70000i32 as u16);
    assert_eq!(c.iso4217, 4464u16);

    let mut row = currency_row();
    row.columns[1] = int_col("precision", -1);
    let c = CurrencyModel::from_row(&row).unwrap().0;
    assert_eq!(c.precision, 255u8);
}

#[test]
fn trend_row_decodes() {
    let model = SignalModel::from_row(&signal_row()).unwrap();
    let s = model.0;
    assert_eq!(s.data_type_str(), "trend");
    assert_eq!(s.metadata_str(), "source=x");
    assert_eq!(s.value, "1.23");
    assert_eq!(s.ts_event.0, 1_700_000_000_000_000_000u64);
    assert_eq!(s.ts_init.0, 1_700_000_000_000_000_500u64);
    assert_eq!(s.ts_init.0 - s.ts_event.0, 500u64);
}

#[test]
fn signal_missing_column_is_named() {
    let row = drop_column(signal_row(), "metadata");
    let err = SignalModel::from_row(&row).unwrap_err();
    match err {
        DecodeError::ColumnMissing { ref column } => assert_eq!(column.as_str(), "metadata"),
        ref other => panic!("expected a missing-column error, got {:?}", other),
    }
}

#[test]
fn bad_timestamp_text_is_rejected() {
    for bad in ["12x3", "-5", "", "+", "1.5", " 7", "99999999999999999999"] {
        let mut row = signal_row();
        row.columns[3] = text_col("ts_event", bad);
        let err = SignalModel::from_row(&row).unwrap_err();
        match err {
            DecodeError::ValueRejected { ref column } => assert_eq!(column.as_str(), "ts_event"),
            ref other => panic!("expected a rejected-value error for {:?}, got {:?}", bad, other),
        }
    }
    let mut row = signal_row();
    row.columns[4] = text_col("ts_init", "ns");
    let err = SignalModel::from_row(&row).unwrap_err();
    match err {
        DecodeError::ValueRejected { ref column } => assert_eq!(column.as_str(), "ts_init"),
        ref other => panic!("expected a rejected-value error, got {:?}", other),
    }
}

#[test]
fn bad_ts_event_precedes_missing_ts_init() {
    let mut row = drop_column(signal_row(), "ts_init");
    row.columns[3] = text_col("ts_event", "soon");
    let err = SignalModel::from_row(&row).unwrap_err();
    match err {
        DecodeError::ValueRejected { ref column } => assert_eq!(column.as_str(), "ts_event"),
        ref other => panic!("expected a rejected-value error, got {:?}", other),
    }
}

#[test]
fn equal_data_type_text_shares_one_representative() {
    let a = SignalModel::from_row(&signal_row()).unwrap().0;
    let mut row = signal_row();
    row.columns[1] = text_col("metadata", "source=y");
    let b = SignalModel::from_row(&row).unwrap().0;
    assert!(same_data_type(&a, &b));
    // The interned handles themselves compare equal: one shared
    // representative for equal text.
    assert_eq!(a.data_type, b.data_type);
    assert_ne!(a.metadata, b.metadata);

    let mut row = signal_row();
    row.columns[0] = text_col("data_type", "momentum");
    let c = SignalModel::from_row(&row).unwrap().0;
    assert!(!same_data_type(&a, &c));
    assert_ne!(a.data_type, c.data_type);
}

#[test]
fn timestamp_text_parses_to_exact_values() {
    let texts = [
        ("0", 0u64),
        ("42", 42u64),
        ("+7", 7u64),
        ("007", 7u64),
        ("18446744073709551615", u64::MAX),
    ];
    for (text, expected) in texts {
        let mut row = signal_row();
        row.columns[3] = text_col("ts_event", text);
        let s = SignalModel::from_row(&row).unwrap().0;
        assert_eq!(s.ts_event.0, expected);
    }
    // One past u64::MAX no longer parses.
    let mut row = signal_row();
    row.columns[3] = text_col("ts_event", "18446744073709551616");
    assert!(SignalModel::from_row(&row).is_err());
}

#[test]
fn error_column_accessor_names_the_column() {
    let row = drop_column(currency_row(), "iso4217");
    let err = CurrencyModel::from_row(&row).unwrap_err();
    assert_eq!(err.column().as_str(), "iso4217");
}
