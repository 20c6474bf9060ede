use chrono::NaiveDate;
use fioapi::amount::Amount;
use fioapi::date::Date;
use fioapi::error::FioError;
use fioapi::json::{parse_json, Json, JsonNumber};
use fioapi::models::{
    decode_account_info, decode_transactions, optional_date_field, parse_account_info,
    parse_transactions, AccountInfo, FioResponse,
};
use fioapi::column::ColumnValue;
use fioapi::transaction::{RawTransaction, Transaction};
use rust_decimal::Decimal;
use std::str::FromStr;

const SAMPLE: &str = r#"{
    "accountStatement": {
        "info": {
            "accountId": "2000000000",
            "bankId": "2010",
            "currency": "CZK",
            "iban": "CZ1000000000002000000000",
            "bic": "FIOZSKBA",
            "openingBalance": "100.00",
            "closingBalance": "200.00",
            "dateStart": "2023-01-01+0000",
            "dateEnd": "2023-01-02+0000",
            "yearList": 2023,
            "idList": 1,
            "idFrom": 123,
            "idTo": 124,
            "idLastDownload": 124
        },
        "transactionList": {
            "transaction": [
                {
                    "column22": { "value": 10001 },
                    "column0": { "value": "2023-01-02+0000" },
                    "column1": { "value": "50.25" },
                    "column14": { "value": "CZK" },
                    "column2": { "value": "123456789" },
                    "column10": { "value": "John Doe" },
                    "column3": { "value": "2010" },
                    "column12": { "value": "Fio banka" },
                    "column4": { "value": "0558" },
                    "column5": { "value": "12345" },
                    "column6": { "value": "001" },
                    "column7": { "value": "user info" },
                    "column16": { "value": "payment" },
                    "column8": { "value": "type" },
                    "column9": { "value": "executor" },
                    "column18": { "value": "spec" },
                    "column25": { "value": "comment" },
                    "column26": { "value": "BICCODE" },
                    "column17": { "value": 77 },
                    "column27": { "value": "payer" }
                }
            ]
        }
    }
}"#;

fn sample_payload() -> String {
    let payload: serde_json::Value = serde_json::from_str(SAMPLE).expect("fixture is JSON");
    payload.to_string()
}

fn decimal(amount: Amount) -> Decimal {
    Decimal::from_i128_with_scale(amount.mantissa, amount.scale)
}

fn naive(date: Date) -> Option<NaiveDate> {
    NaiveDate::from_ymd_opt(date.year, date.month, date.day)
}

/// A statement document with the given rows and a minimal `info`.
fn document(rows: &str) -> String {
    format!(
        r#"{{"accountStatement":{{"info":{{"currency":"CZK"}},"transactionList":{{"transaction":[{}]}}}}}}"#,
        rows
    )
}

/// A row with the four mandatory columns and what else is given.
fn row(extra: &str) -> String {
    format!(
        r#"{{"column22":{{"value":1}},"column0":{{"value":"2023-01-02"}},"column1":{{"value":"1.5"}},"column14":{{"value":"CZK"}}{}}}"#,
        extra
    )
}

fn one(rows: &str) -> Transaction {
    let mut txns = parse_transactions(&document(rows)).expect("transactions should parse");
    assert_eq!(txns.len(), 1);
    txns.remove(0)
}

fn fails(rows: &str) {
    assert!(matches!(
        parse_transactions(&document(rows)),
        Err(FioError::InvalidResponse)
    ));
}

#[test]
fn parses_account_info() {
    let json = sample_payload();
    let info = parse_account_info(&json).expect("info should parse");
    assert_eq!(info.account_id.as_deref(), Some("2000000000"));
    assert_eq!(Some(info.currency.as_str()), Some("CZK"));
    assert_eq!(
        info.date_start.and_then(naive),
        NaiveDate::from_ymd_opt(2023, 1, 1)
    );
}

#[test]
fn parses_transactions() {
    let json = sample_payload();
    let txns = parse_transactions(&json).expect("transactions should parse");
    assert_eq!(txns.len(), 1);
    let txn = &txns[0];
    assert_eq!(txn.transaction_id, "10001");
    assert_eq!(decimal(txn.amount), Decimal::from_str("50.25").unwrap());
    assert_eq!(
        naive(txn.date).unwrap(),
        NaiveDate::from_ymd_opt(2023, 1, 2).unwrap()
    );
    assert_eq!(txn.vs.as_deref(), Some("12345"));
    assert_eq!(txn.order_id, Some(77));
}

#[test]
fn sample_account_info_has_every_field() {
    let info = parse_account_info(SAMPLE).expect("info should parse");
    assert_eq!(info.account_id.as_deref(), Some("2000000000"));
    assert_eq!(info.bank_id.as_deref(), Some("2010"));
    assert_eq!(info.currency, "CZK");
    assert_eq!(info.iban.as_deref(), Some("CZ1000000000002000000000"));
    assert_eq!(info.bic.as_deref(), Some("FIOZSKBA"));
    assert_eq!(info.opening_balance, Some(Amount { mantissa: 10000, scale: 2 }));
    assert_eq!(info.closing_balance, Some(Amount { mantissa: 20000, scale: 2 }));
    assert_eq!(info.date_start, Some(Date { year: 2023, month: 1, day: 1 }));
    assert_eq!(info.date_end, Some(Date { year: 2023, month: 1, day: 2 }));
    assert_eq!(info.year_list, Some(2023));
    assert_eq!(info.id_list, Some(1));
    assert_eq!(info.id_from, Some(123));
    assert_eq!(info.id_to, Some(124));
    assert_eq!(info.id_last_download, Some(124));
}

#[test]
fn sample_transaction_has_every_field() {
    let txns = parse_transactions(SAMPLE).expect("transactions should parse");
    assert_eq!(txns.len(), 1);
    let txn = &txns[0];
    assert_eq!(txn.transaction_id, "10001");
    assert_eq!(txn.date, Date { year: 2023, month: 1, day: 2 });
    assert_eq!(txn.amount, Amount { mantissa: 5025, scale: 2 });
    assert_eq!(txn.currency, "CZK");
    assert_eq!(txn.account_id.as_deref(), Some("123456789"));
    assert_eq!(txn.account_name.as_deref(), Some("John Doe"));
    assert_eq!(txn.bank_id.as_deref(), Some("2010"));
    assert_eq!(txn.bank_name.as_deref(), Some("Fio banka"));
    assert_eq!(txn.ks.as_deref(), Some("0558"));
    assert_eq!(txn.vs.as_deref(), Some("12345"));
    assert_eq!(txn.ss.as_deref(), Some("001"));
    assert_eq!(txn.user_identification.as_deref(), Some("user info"));
    assert_eq!(txn.remittance_info.as_deref(), Some("payment"));
    assert_eq!(txn.transaction_type.as_deref(), Some("type"));
    assert_eq!(txn.executor.as_deref(), Some("executor"));
    assert_eq!(txn.specification.as_deref(), Some("spec"));
    assert_eq!(txn.comment.as_deref(), Some("comment"));
    assert_eq!(txn.bic.as_deref(), Some("BICCODE"));
    assert_eq!(txn.order_id, Some(77));
    assert_eq!(txn.payer_reference.as_deref(), Some("payer"));
}

#[test]
fn transactions_keep_the_order_of_the_rows() {
    let rows = [
        r#"{"column22":{"value":"c"},"column0":{"value":"2023-03-03"},"column1":{"value":"3"},"column14":{"value":"CZK"}}"#,
        r#"{"column22":{"value":"a"},"column0":{"value":"2023-01-01"},"column1":{"value":"1"},"column14":{"value":"EUR"}}"#,
        r#"{"column22":{"value":"b"},"column0":{"value":"2023-02-02"},"column1":{"value":"2"},"column14":{"value":"USD"}}"#,
    ]
    .join(",");
    let txns = parse_transactions(&document(&rows)).expect("transactions should parse");
    let ids: Vec<&str> = txns.iter().map(|t| t.transaction_id.as_str()).collect();
    assert_eq!(ids, vec!["c", "a", "b"]);
    let currencies: Vec<&str> = txns.iter().map(|t| t.currency.as_str()).collect();
    assert_eq!(currencies, vec!["CZK", "EUR", "USD"]);
}

#[test]
fn empty_transaction_array_gives_no_transactions() {
    let txns = parse_transactions(&document("")).expect("transactions should parse");
    assert!(txns.is_empty());
}

#[test]
fn row_without_optional_columns_has_them_absent() {
    let txn = one(&row(""));
    assert_eq!(txn.transaction_id, "1");
    assert_eq!(txn.amount, Amount { mantissa: 15, scale: 1 });
    assert_eq!(txn.account_id, None);
    assert_eq!(txn.account_name, None);
    assert_eq!(txn.bank_id, None);
    assert_eq!(txn.bank_name, None);
    assert_eq!(txn.ks, None);
    assert_eq!(txn.vs, None);
    assert_eq!(txn.ss, None);
    assert_eq!(txn.user_identification, None);
    assert_eq!(txn.remittance_info, None);
    assert_eq!(txn.transaction_type, None);
    assert_eq!(txn.executor, None);
    assert_eq!(txn.specification, None);
    assert_eq!(txn.comment, None);
    assert_eq!(txn.bic, None);
    assert_eq!(txn.order_id, None);
    assert_eq!(txn.payer_reference, None);
}

#[test]
fn row_without_a_mandatory_column_fails_the_parse() {
    fails(r#"{"column0":{"value":"2023-01-02"},"column1":{"value":"1.5"},"column14":{"value":"CZK"}}"#);
    fails(r#"{"column22":{"value":1},"column1":{"value":"1.5"},"column14":{"value":"CZK"}}"#);
    fails(r#"{"column22":{"value":1},"column0":{"value":"2023-01-02"},"column14":{"value":"CZK"}}"#);
    fails(r#"{"column22":{"value":1},"column0":{"value":"2023-01-02"},"column1":{"value":"1.5"}}"#);
}

#[test]
fn one_bad_row_fails_the_whole_parse() {
    let rows = format!("{},{}", row(""), r#"{"column22":{"value":2}}"#);
    fails(&rows);
}

#[test]
fn date_is_read_from_the_first_ten_characters() {
    let long = r#"{"column22":{"value":1},"column0":{"value":"2024-02-29+0100 and more"},"column1":{"value":"1"},"column14":{"value":"CZK"}}"#;
    assert_eq!(one(long).date, Date { year: 2024, month: 2, day: 29 });
    fails(r#"{"column22":{"value":1},"column0":{"value":"2023-01-0"},"column1":{"value":"1"},"column14":{"value":"CZK"}}"#);
    fails(r#"{"column22":{"value":1},"column0":{"value":""},"column1":{"value":"1"},"column14":{"value":"CZK"}}"#);
    fails(r#"{"column22":{"value":1},"column0":{"value":"02.01.2023 "},"column1":{"value":"1"},"column14":{"value":"CZK"}}"#);
    fails(r#"{"column22":{"value":1},"column0":{"value":"2023-02-30"},"column1":{"value":"1"},"column14":{"value":"CZK"}}"#);
    fails(r#"{"column22":{"value":1},"column0":{"value":20230102},"column1":{"value":"1"},"column14":{"value":"CZK"}}"#);
}

#[test]
fn number_decodes_as_the_same_string() {
    let as_number = one(&row(r#","column5":{"value":12345},"column2":{"value":-7}"#));
    let as_string = one(&row(r#","column5":{"value":"12345"},"column2":{"value":"-7"}"#));
    assert_eq!(as_number.vs.as_deref(), Some("12345"));
    assert_eq!(as_number.vs, as_string.vs);
    assert_eq!(as_number.account_id.as_deref(), Some("-7"));
    assert_eq!(as_number.account_id, as_string.account_id);
    let id_number = one(r#"{"column22":{"value":10001},"column0":{"value":"2023-01-02"},"column1":{"value":"1"},"column14":{"value":"CZK"}}"#);
    let id_string = one(r#"{"column22":{"value":"10001"},"column0":{"value":"2023-01-02"},"column1":{"value":"1"},"column14":{"value":"CZK"}}"#);
    assert_eq!(id_number.transaction_id, "10001");
    assert_eq!(id_number.transaction_id, id_string.transaction_id);
}

#[test]
fn boolean_decodes_as_its_name() {
    let txn = one(&row(r#","column25":{"value":true},"column7":{"value":false}"#));
    assert_eq!(txn.comment.as_deref(), Some("true"));
    assert_eq!(txn.user_identification.as_deref(), Some("false"));
}

#[test]
fn empty_string_is_an_absent_column() {
    let keys = [
        "column2", "column10", "column3", "column12", "column4", "column5", "column6", "column7",
        "column16", "column8", "column9", "column18", "column25", "column26", "column17",
        "column27",
    ];
    let without = format!("{:?}", one(&row("")));
    for key in keys {
        let with_empty = one(&row(&format!(r#","{}":{{"value":""}}"#, key)));
        assert_eq!(format!("{:?}", with_empty), without);
    }
}

#[test]
fn null_column_is_an_absent_column() {
    let txn = one(&row(r#","column5":null,"column17":null"#));
    assert_eq!(txn.vs, None);
    assert_eq!(txn.order_id, None);
}

#[test]
fn value_of_another_type_is_an_absent_field() {
    let txn = one(&row(
        r#","column5":{"value":null},"column6":{"value":[1]},"column7":{"value":{"a":1}}"#,
    ));
    assert_eq!(txn.vs, None);
    assert_eq!(txn.ss, None);
    assert_eq!(txn.user_identification, None);
}

#[test]
fn malformed_column_fails_the_parse() {
    fails(&row(r#","column5":5"#));
    fails(&row(r#","column5":"text""#));
    fails(&row(r#","column5":{}"#));
    fails(&row(r#","column5":[{"value":1}]"#));
}

#[test]
fn unknown_columns_are_ignored() {
    let txn = one(&row(r#","column99":{"value":"x"},"other":5"#));
    assert_eq!(txn.transaction_id, "1");
}

#[test]
fn order_id_is_an_integer_or_absent() {
    assert_eq!(one(&row(r#","column17":{"value":77}"#)).order_id, Some(77));
    assert_eq!(one(&row(r#","column17":{"value":-5}"#)).order_id, Some(-5));
    assert_eq!(
        one(&row(r#","column17":{"value":9223372036854775807}"#)).order_id,
        Some(i64::MAX)
    );
    assert_eq!(one(&row(r#","column17":{"value":9223372036854775808}"#)).order_id, None);
    assert_eq!(one(&row(r#","column17":{"value":77.5}"#)).order_id, None);
    assert_eq!(one(&row(r#","column17":{"value":"77"}"#)).order_id, None);
    assert_eq!(one(&row(r#","column17":{"value":true}"#)).order_id, None);
}

#[test]
fn amount_is_a_numeric_literal() {
    let with = |amount: &str| {
        format!(
            r#"{{"column22":{{"value":1}},"column0":{{"value":"2023-01-02"}},"column1":{{"value":{}}},"column14":{{"value":"CZK"}}}}"#,
            amount
        )
    };
    assert_eq!(one(&with(r#""50.25""#)).amount, Amount { mantissa: 5025, scale: 2 });
    assert_eq!(one(&with("50.25")).amount, Amount { mantissa: 5025, scale: 2 });
    assert_eq!(one(&with(r#""-0.5""#)).amount, Amount { mantissa: -5, scale: 1 });
    assert_eq!(one(&with("-12")).amount, Amount { mantissa: -12, scale: 0 });
    assert_eq!(
        decimal(one(&with(r#""1.5e3""#)).amount),
        Decimal::from_str("1500").unwrap()
    );
    fails(&with(r#""abc""#));
    fails(&with(r#""""#));
    fails(&with("true"));
    fails(&with("null"));
    fails(&with("[1]"));
}

#[test]
fn currency_must_be_a_string() {
    fails(r#"{"column22":{"value":1},"column0":{"value":"2023-01-02"},"column1":{"value":"1"},"column14":{"value":5}}"#);
    fails(r#"{"column22":{"value":1},"column0":{"value":"2023-01-02"},"column1":{"value":"1"},"column14":null}"#);
}

#[test]
fn transaction_id_must_have_a_text() {
    fails(r#"{"column22":{"value":null},"column0":{"value":"2023-01-02"},"column1":{"value":"1"},"column14":{"value":"CZK"}}"#);
    fails(r#"{"column22":{"value":[1]},"column0":{"value":"2023-01-02"},"column1":{"value":"1"},"column14":{"value":"CZK"}}"#);
    let txn = one(r#"{"column22":{"value":true},"column0":{"value":"2023-01-02"},"column1":{"value":"1"},"column14":{"value":"CZK"}}"#);
    assert_eq!(txn.transaction_id, "true");
}

#[test]
fn text_that_is_no_json_is_an_invalid_response() {
    assert!(matches!(parse_transactions("{"), Err(FioError::InvalidResponse)));
    assert!(matches!(parse_transactions(""), Err(FioError::InvalidResponse)));
    assert!(matches!(parse_account_info("not json"), Err(FioError::InvalidResponse)));
}

#[test]
fn document_of_another_shape_is_an_invalid_response() {
    for text in [
        "{}",
        "[]",
        "5",
        r#"{"accountStatement":null}"#,
        r#"{"accountStatement":{"info":{"currency":"CZK"}}}"#,
        r#"{"accountStatement":{"info":{"currency":"CZK"},"transactionList":{}}}"#,
        r#"{"accountStatement":{"info":{"currency":"CZK"},"transactionList":{"transaction":null}}}"#,
        r#"{"accountStatement":{"info":{"currency":"CZK"},"transactionList":{"transaction":{}}}}"#,
        r#"{"accountStatement":{"transactionList":{"transaction":[]}}}"#,
        r#"{"accountStatement":{"info":{"currency":5},"transactionList":{"transaction":[]}}}"#,
        r#"{"accountStatement":{"info":{"currency":"CZK"},"transactionList":{"transaction":[5]}}}"#,
    ] {
        assert!(
            matches!(parse_transactions(text), Err(FioError::InvalidResponse)),
            "{}",
            text
        );
    }
}

#[test]
fn account_info_needs_only_the_info_object() {
    let info = parse_account_info(r#"{"accountStatement":{"info":{"currency":"EUR"}}}"#)
        .expect("info should parse");
    assert_eq!(info.currency, "EUR");
    assert_eq!(info.account_id, None);
    assert_eq!(info.bank_id, None);
    assert_eq!(info.iban, None);
    assert_eq!(info.bic, None);
    assert_eq!(info.opening_balance, None);
    assert_eq!(info.closing_balance, None);
    assert_eq!(info.date_start, None);
    assert_eq!(info.date_end, None);
    assert_eq!(info.year_list, None);
    assert_eq!(info.id_list, None);
    assert_eq!(info.id_from, None);
    assert_eq!(info.id_to, None);
    assert_eq!(info.id_last_download, None);
}

fn info_of(members: &str) -> Result<AccountInfo, FioError> {
    parse_account_info(&format!(
        r#"{{"accountStatement":{{"info":{{"currency":"CZK"{}}}}}}}"#,
        members
    ))
}

#[test]
fn account_info_takes_null_and_empty_date_as_absent() {
    let info = info_of(r#","accountId":null,"dateStart":"","dateEnd":null,"yearList":null,"openingBalance":null"#)
        .expect("info should parse");
    assert_eq!(info.account_id, None);
    assert_eq!(info.date_start, None);
    assert_eq!(info.date_end, None);
    assert_eq!(info.year_list, None);
    assert_eq!(info.opening_balance, None);
    let kept = info_of(r#","accountId":"""#).expect("info should parse");
    assert_eq!(kept.account_id.as_deref(), Some(""));
}

#[test]
fn account_info_rejects_members_of_the_wrong_type() {
    for members in [
        r#","accountId":5"#,
        r#","iban":true"#,
        r#","openingBalance":"abc""#,
        r#","closingBalance":[]"#,
        r#","dateStart":20230101"#,
        r#","dateEnd":true"#,
        r#","dateStart":["2023-01-01"]"#,
        r#","dateEnd":{"value":"2023-01-01"}"#,
        r#","yearList":"2023""#,
        r#","yearList":2023.5"#,
        r#","idList":2147483648"#,
        r#","idFrom":"1""#,
        r#","idTo":9223372036854775808"#,
        r#","idLastDownload":1.0"#,
    ] {
        assert!(matches!(info_of(members), Err(FioError::InvalidResponse)), "{}", members);
    }
    assert!(matches!(
        parse_account_info(r#"{"accountStatement":{"info":{"accountId":"1"}}}"#),
        Err(FioError::InvalidResponse)
    ));
    assert!(matches!(
        parse_account_info(r#"{"accountStatement":{}}"#),
        Err(FioError::InvalidResponse)
    ));
}

#[test]
fn account_info_reads_numbers_at_their_limits() {
    let info = info_of(r#","yearList":-2147483648,"idList":2147483647,"idFrom":-9223372036854775808,"idTo":9223372036854775807,"openingBalance":12.5"#)
        .expect("info should parse");
    assert_eq!(info.year_list, Some(i32::MIN));
    assert_eq!(info.id_list, Some(i32::MAX));
    assert_eq!(info.id_from, Some(i64::MIN));
    assert_eq!(info.id_to, Some(i64::MAX));
    assert_eq!(info.opening_balance, Some(Amount { mantissa: 125, scale: 1 }));
}

fn text(s: &str) -> Json {
    Json::Text(s.to_string())
}

fn wrapped(value: Json) -> Json {
    Json::Object(vec![("value".to_string(), value)])
}

fn hand_built_row() -> Json {
    Json::Object(vec![
        (
            "column22".to_string(),
            wrapped(Json::Number(JsonNumber { text: "42".to_string(), integer: Some(42) })),
        ),
        ("column0".to_string(), wrapped(text("2023-05-06T00:00"))),
        ("column1".to_string(), wrapped(text("-3.10"))),
        ("column14".to_string(), wrapped(text("CZK"))),
        ("column5".to_string(), wrapped(text("555"))),
    ])
}

#[test]
fn decodes_a_document_built_by_hand() {
    let document = Json::Object(vec![(
        "accountStatement".to_string(),
        Json::Object(vec![
            ("info".to_string(), Json::Object(vec![("currency".to_string(), text("CZK"))])),
            (
                "transactionList".to_string(),
                Json::Object(vec![(
                    "transaction".to_string(),
                    Json::Array(vec![hand_built_row()]),
                )]),
            ),
        ]),
    )]);
    let txns = decode_transactions(&document).expect("transactions should decode");
    assert_eq!(txns.len(), 1);
    assert_eq!(txns[0].transaction_id, "42");
    assert_eq!(txns[0].date, Date { year: 2023, month: 5, day: 6 });
    assert_eq!(txns[0].amount, Amount { mantissa: -310, scale: 2 });
    assert_eq!(txns[0].vs.as_deref(), Some("555"));
    let info = decode_account_info(&document).expect("info should decode");
    assert_eq!(info.currency, "CZK");
    let response = FioResponse::from_json(&document).expect("document should decode");
    assert_eq!(response.account_info().currency, "CZK");
    assert_eq!(response.account_statement.transaction_list.transaction.len(), 1);
    assert_eq!(response.transactions().expect("rows should decode").len(), 1);
}

#[test]
fn raw_row_keeps_the_scalars_as_sent() {
    let raw = RawTransaction::from_json(&hand_built_row()).expect("row should decode");
    assert_eq!(raw.date, "2023-05-06T00:00");
    assert_eq!(raw.amount, "-3.10");
    assert_eq!(raw.currency, "CZK");
    assert!(matches!(&raw.transaction_id, ColumnValue::Number(n) if n.text == "42"));
    assert!(matches!(&raw.vs, Some(ColumnValue::Text(s)) if s == "555"));
    assert!(raw.account_id.is_none());
    let txn = Transaction::try_from(&raw).expect("row should have a record");
    assert_eq!(txn.transaction_id, "42");
    let doc = parse_json(r#"{"column22":{"value":1},"column0":{"value":"garbage in here"},"column1":{"value":"1"},"column14":{"value":"CZK"}}"#).unwrap();
    let raw = RawTransaction::from_json(&doc).expect("row should decode");
    assert!(matches!(Transaction::try_from(&raw), Err(FioError::InvalidResponse)));
}

#[test]
fn record_is_assembled_from_what_was_read() {
    let raw = RawTransaction::from_json(&hand_built_row()).expect("row should decode");
    let date = Date { year: 2001, month: 2, day: 3 };
    let amount = Amount { mantissa: 7, scale: 1 };
    let txn = Transaction::from_raw(&raw, Some(date), Some(amount)).expect("a record");
    assert_eq!(txn.transaction_id, "42");
    assert_eq!(txn.date, date);
    assert_eq!(txn.amount, amount);
    assert_eq!(txn.currency, "CZK");
    assert_eq!(txn.vs.as_deref(), Some("555"));
    assert_eq!(txn.ks, None);
    assert!(matches!(
        Transaction::from_raw(&raw, None, Some(amount)),
        Err(FioError::InvalidResponse)
    ));
    assert!(matches!(
        Transaction::from_raw(&raw, Some(date), None),
        Err(FioError::InvalidResponse)
    ));
    let mut without_id = raw.clone();
    without_id.transaction_id = ColumnValue::Other;
    assert!(matches!(
        Transaction::from_raw(&without_id, Some(date), Some(amount)),
        Err(FioError::InvalidResponse)
    ));
}

#[test]
fn amount_that_cannot_be_read_fails_the_transactions() {
    let text = document(r#"{"column22":{"value":1},"column0":{"value":"2023-01-02"},"column1":{"value":"1x"},"column14":{"value":"CZK"}}"#);
    let document = parse_json(&text).unwrap();
    let response = FioResponse::from_json(&document).expect("the shape is that of a statement");
    assert_eq!(response.account_statement.transaction_list.transaction[0].amount, "1x");
    assert!(matches!(response.transactions(), Err(FioError::InvalidResponse)));
    assert!(matches!(decode_transactions(&document), Err(FioError::InvalidResponse)));
}

#[test]
fn date_that_cannot_be_read_is_absent() {
    for text in ["2023-1-1", "01.01.2023", "2023-01", "2023-02-30+0000", "not a date at all", " "] {
        let info = info_of(&format!(r#","dateStart":"{}","dateEnd":"{}","idFrom":7"#, text, text))
            .expect("info should parse");
        assert_eq!(info.date_start, None, "{:?}", text);
        assert_eq!(info.date_end, None, "{:?}", text);
        assert_eq!(info.currency, "CZK");
        assert_eq!(info.id_from, Some(7));
    }
    let info = info_of(r#","dateStart":"garbage","dateEnd":"2023-01-02+0000""#)
        .expect("info should parse");
    assert_eq!(info.date_start, None);
    assert_eq!(info.date_end, Some(Date { year: 2023, month: 1, day: 2 }));
}

#[test]
fn date_that_cannot_be_read_does_not_fail_the_transactions() {
    let text = r#"{"accountStatement":{"info":{"currency":"CZK","dateStart":"01.01.2023"},"transactionList":{"transaction":[]}}}"#;
    assert!(parse_transactions(text).expect("transactions should parse").is_empty());
    let document = parse_json(text).unwrap();
    let response = FioResponse::from_json(&document).expect("document should decode");
    assert_eq!(response.account_info().date_start, None);
    assert!(AccountInfo::from_json(document.get("accountStatement").unwrap().get("info").unwrap()).is_ok());
}

#[test]
fn optional_date_member_is_read_or_absent_or_a_fault() {
    let object = parse_json(
        r#"{"good":"2023-01-02+0000","short":"2023-1-2","other":"02.01.2023","empty":"","null":null,"number":20230102,"flag":false,"list":[],"object":{}}"#,
    )
    .unwrap();
    assert_eq!(
        optional_date_field(&object, "good"),
        Some(Some(Date { year: 2023, month: 1, day: 2 }))
    );
    assert_eq!(optional_date_field(&object, "short"), Some(None));
    assert_eq!(optional_date_field(&object, "other"), Some(None));
    assert_eq!(optional_date_field(&object, "empty"), Some(None));
    assert_eq!(optional_date_field(&object, "null"), Some(None));
    assert_eq!(optional_date_field(&object, "missing"), Some(None));
    assert_eq!(optional_date_field(&object, "number"), None);
    assert_eq!(optional_date_field(&object, "flag"), None);
    assert_eq!(optional_date_field(&object, "list"), None);
    assert_eq!(optional_date_field(&object, "object"), None);
}
