use chrono::NaiveDate;
use fioapi::amount::{parse_amount, Amount, MAX_MANTISSA, MAX_SCALE};
use fioapi::column::{
    json_value_to_string, optional_i64, optional_string, Column, ColumnValue, Slot,
};
use fioapi::date::{parse_date, Date, MAX_YEAR, MIN_YEAR};
use fioapi::json::{parse_json, Json, JsonNumber};
use fioapi::text::{append_i64, append_u64, digit_str, find, is_whitespace_char, parse_i32, trim};
use rust_decimal::Decimal;
use std::str::FromStr;

#[test]
fn parses_scalar_documents() {
    assert!(matches!(parse_json("null"), Some(Json::Null)));
    assert!(matches!(parse_json("true"), Some(Json::Bool(true))));
    assert!(matches!(parse_json("false"), Some(Json::Bool(false))));
    match parse_json(r#""text""#) {
        Some(Json::Text(s)) => assert_eq!(s, "text"),
        other => panic!("{:?}", other),
    }
    assert!(parse_json("{").is_none());
    assert!(parse_json("").is_none());
    assert!(parse_json("[1,]").is_none());
    assert!(parse_json("1 2").is_none());
}

fn number(text: &str) -> JsonNumber {
    match parse_json(text) {
        Some(Json::Number(n)) => n,
        other => panic!("{:?}", other),
    }
}

#[test]
fn number_has_its_text_and_its_integer() {
    let n = number("10001");
    assert_eq!(n.text, "10001");
    assert_eq!(n.integer, Some(10001));
    let n = number("-42");
    assert_eq!(n.text, "-42");
    assert_eq!(n.integer, Some(-42));
    let n = number("50.25");
    assert_eq!(n.text, "50.25");
    assert_eq!(n.integer, None);
    let n = number("18446744073709551615");
    assert_eq!(n.text, "18446744073709551615");
    assert_eq!(n.integer, None);
    let n = number("1.0");
    assert_eq!(n.text, "1.0");
    assert_eq!(n.integer, None);
}

#[test]
fn array_and_object_keep_their_contents() {
    match parse_json(r#"[1,"a",[true],{"k":null}]"#) {
        Some(Json::Array(items)) => {
            assert_eq!(items.len(), 4);
            assert!(matches!(&items[0], Json::Number(n) if n.integer == Some(1)));
            assert!(matches!(&items[1], Json::Text(s) if s == "a"));
            assert!(matches!(&items[2], Json::Array(inner) if inner.len() == 1));
            match &items[3] {
                Json::Object(members) => {
                    assert_eq!(members.len(), 1);
                    assert_eq!(members[0].0, "k");
                    assert!(matches!(members[0].1, Json::Null));
                }
                other => panic!("{:?}", other),
            }
        }
        other => panic!("{:?}", other),
    }
}

#[test]
fn object_member_is_found_by_its_key() {
    let object = parse_json(r#"{"a":1,"b":"two","":false}"#).unwrap();
    assert!(matches!(object.get("a"), Some(Json::Number(n)) if n.integer == Some(1)));
    assert!(matches!(object.get("b"), Some(Json::Text(s)) if s == "two"));
    assert!(matches!(object.get(""), Some(Json::Bool(false))));
    assert!(object.get("c").is_none());
    assert!(object.get("A").is_none());
    assert!(Json::Null.get("a").is_none());
    assert!(Json::Array(vec![]).get("a").is_none());
    let twice = Json::Object(vec![
        ("k".to_string(), Json::Bool(true)),
        ("k".to_string(), Json::Bool(false)),
    ]);
    assert!(matches!(twice.get("k"), Some(Json::Bool(true))));
}

#[test]
fn slot_tells_missing_filled_and_malformed() {
    let row = parse_json(
        r#"{"column5":{"value":"x"},"column6":null,"column7":7,"column8":{"other":1},"column17":{"value":3,"name":"n"}}"#,
    )
    .unwrap();
    assert!(matches!(Slot::read(&row, Column::Vs), Slot::Filled(ColumnValue::Text(s)) if s == "x"));
    assert!(matches!(Slot::read(&row, Column::Ss), Slot::Missing));
    assert!(matches!(Slot::read(&row, Column::UserIdentification), Slot::Malformed));
    assert!(matches!(Slot::read(&row, Column::TransactionType), Slot::Malformed));
    assert!(matches!(Slot::read(&row, Column::Ks), Slot::Missing));
    assert!(
        matches!(Slot::read(&row, Column::OrderId), Slot::Filled(ColumnValue::Number(n)) if n.integer == Some(3))
    );
}

#[test]
fn columns_have_their_keys() {
    let table = [
        (Column::TransactionId, "column22", true),
        (Column::Date, "column0", true),
        (Column::Amount, "column1", true),
        (Column::Currency, "column14", true),
        (Column::AccountId, "column2", false),
        (Column::AccountName, "column10", false),
        (Column::BankId, "column3", false),
        (Column::BankName, "column12", false),
        (Column::Ks, "column4", false),
        (Column::Vs, "column5", false),
        (Column::Ss, "column6", false),
        (Column::UserIdentification, "column7", false),
        (Column::RemittanceInfo, "column16", false),
        (Column::TransactionType, "column8", false),
        (Column::Executor, "column9", false),
        (Column::Specification, "column18", false),
        (Column::Comment, "column25", false),
        (Column::Bic, "column26", false),
        (Column::OrderId, "column17", false),
        (Column::PayerReference, "column27", false),
    ];
    for (column, key, mandatory) in table {
        assert_eq!(column.key(), key);
        assert_eq!(column.is_mandatory(), mandatory);
    }
}

#[test]
fn scalar_to_string() {
    let n = JsonNumber { text: "1.5".to_string(), integer: None };
    assert_eq!(json_value_to_string(&ColumnValue::Text("a".to_string())).as_deref(), Some("a"));
    assert_eq!(json_value_to_string(&ColumnValue::Text(String::new())).as_deref(), Some(""));
    assert_eq!(json_value_to_string(&ColumnValue::Number(n.clone())).as_deref(), Some("1.5"));
    assert_eq!(json_value_to_string(&ColumnValue::Bool(true)).as_deref(), Some("true"));
    assert_eq!(json_value_to_string(&ColumnValue::Bool(false)).as_deref(), Some("false"));
    assert_eq!(json_value_to_string(&ColumnValue::Other), None);
    assert_eq!(optional_string(&None), None);
    assert_eq!(optional_string(&Some(ColumnValue::Text(String::new()))), None);
    assert_eq!(optional_string(&Some(ColumnValue::Text("a".to_string()))).as_deref(), Some("a"));
    assert_eq!(optional_string(&Some(ColumnValue::Number(n.clone()))).as_deref(), Some("1.5"));
    assert_eq!(optional_string(&Some(ColumnValue::Other)), None);
    assert_eq!(optional_i64(&None), None);
    assert_eq!(optional_i64(&Some(ColumnValue::Number(n))), None);
    assert_eq!(
        optional_i64(&Some(ColumnValue::Number(JsonNumber {
            text: "77".to_string(),
            integer: Some(77)
        }))),
        Some(77)
    );
    assert_eq!(optional_i64(&Some(ColumnValue::Text("77".to_string()))), None);
}

#[test]
fn amount_from_text() {
    assert_eq!(parse_amount("50.25"), Some(Amount { mantissa: 5025, scale: 2 }));
    assert_eq!(parse_amount("100.00"), Some(Amount { mantissa: 10000, scale: 2 }));
    assert_eq!(parse_amount("-0.001"), Some(Amount { mantissa: -1, scale: 3 }));
    assert_eq!(parse_amount("7"), Some(Amount { mantissa: 7, scale: 0 }));
    assert_eq!(parse_amount("abc"), None);
    assert_eq!(parse_amount(""), None);
    assert_eq!(parse_amount("1,5"), None);
    for text in ["50.25", "-1", "0.0000000001", "79228162514264337593543950335", "1e3", "2.5E-3"] {
        let amount = parse_amount(text).expect(text);
        assert!(amount.check_valid());
        let expected = Decimal::from_str(text).or_else(|_| Decimal::from_scientific(text)).unwrap();
        assert_eq!(Decimal::from_i128_with_scale(amount.mantissa, amount.scale), expected);
        assert_eq!(amount.mantissa, expected.mantissa());
        assert_eq!(amount.scale, expected.scale());
    }
    assert_eq!(parse_amount("79228162514264337593543950336"), None);
}

#[test]
fn amount_validity_is_that_of_a_decimal() {
    assert_eq!(MAX_SCALE, 28);
    assert_eq!(MAX_MANTISSA, (1i128 << 96) - 1);
    assert!(Amount { mantissa: MAX_MANTISSA, scale: 28 }.check_valid());
    assert!(Amount { mantissa: -MAX_MANTISSA, scale: 0 }.check_valid());
    assert!(!Amount { mantissa: MAX_MANTISSA + 1, scale: 0 }.check_valid());
    assert!(!Amount { mantissa: -MAX_MANTISSA - 1, scale: 0 }.check_valid());
    assert!(!Amount { mantissa: 0, scale: 29 }.check_valid());
    assert!(Decimal::try_from_i128_with_scale(MAX_MANTISSA, 28).is_ok());
    assert!(Decimal::try_from_i128_with_scale(MAX_MANTISSA + 1, 0).is_err());
    assert!(Decimal::try_from_i128_with_scale(0, 29).is_err());
}

#[test]
fn date_from_text() {
    assert_eq!(parse_date("2023-01-02"), Some(Date { year: 2023, month: 1, day: 2 }));
    assert_eq!(parse_date("2023-01-02+0000"), Some(Date { year: 2023, month: 1, day: 2 }));
    assert_eq!(parse_date("2024-02-29T12:00:00"), Some(Date { year: 2024, month: 2, day: 29 }));
    assert_eq!(parse_date("2023-02-29+0000"), None);
    assert_eq!(parse_date("2023-01-0"), None);
    assert_eq!(parse_date("2023-1-2"), None);
    assert_eq!(parse_date(""), None);
    assert_eq!(parse_date("2023/01/02"), None);
    assert_eq!(parse_date("ěščřžýáíé"), None);
    assert_eq!(parse_date("ěščřžýáíéů"), None);
    assert_eq!(parse_date("2023-01-02ěšč"), Some(Date { year: 2023, month: 1, day: 2 }));
}

#[test]
fn date_validity() {
    assert_eq!(Date::new(2023, 1, 31), Some(Date { year: 2023, month: 1, day: 31 }));
    assert_eq!(Date::new(2024, 2, 29), Some(Date { year: 2024, month: 2, day: 29 }));
    assert_eq!(Date::new(2000, 2, 29), Some(Date { year: 2000, month: 2, day: 29 }));
    assert_eq!(Date::new(1900, 2, 29), None);
    assert_eq!(Date::new(2023, 2, 29), None);
    assert_eq!(Date::new(2023, 4, 31), None);
    assert_eq!(Date::new(2023, 0, 1), None);
    assert_eq!(Date::new(2023, 13, 1), None);
    assert_eq!(Date::new(2023, 1, 0), None);
    assert_eq!(Date::new(2023, 1, 32), None);
    assert!(Date::new(-4, 2, 29).is_some());
    assert!(Date::new(-1, 2, 29).is_none());
    assert!(Date::new(MIN_YEAR, 1, 1).is_some());
    assert!(Date::new(MAX_YEAR, 12, 31).is_some());
    assert!(Date::new(MIN_YEAR - 1, 12, 31).is_none());
    assert!(Date::new(MAX_YEAR + 1, 1, 1).is_none());
    for year in [-401, -400, -100, -4, -1, 0, 1, 4, 100, 400, 1900, 2000, 2023, 2024, MIN_YEAR, MAX_YEAR, MIN_YEAR - 1, MAX_YEAR + 1] {
        for month in 0..14u32 {
            for day in [0u32, 1, 28, 29, 30, 31, 32] {
                assert_eq!(
                    Date::new(year, month, day).is_some(),
                    NaiveDate::from_ymd_opt(year, month, day).is_some(),
                    "{} {} {}",
                    year,
                    month,
                    day
                );
            }
        }
    }
}

#[test]
fn date_as_text() {
    let text = |y, m, d| Date::new(y, m, d).unwrap().to_ymd_string();
    assert_eq!(text(2023, 1, 2), "2023-01-02");
    assert_eq!(text(2023, 12, 31), "2023-12-31");
    assert_eq!(text(999, 10, 9), "0999-10-09");
    assert_eq!(text(5, 5, 5), "0005-05-05");
    assert_eq!(text(0, 1, 1), "0000-01-01");
    assert_eq!(text(9999, 12, 31), "9999-12-31");
    assert_eq!(text(10000, 1, 1), "+10000-01-01");
    assert_eq!(text(-1, 1, 1), "-0001-01-01");
    assert_eq!(text(-12345, 6, 7), "-12345-06-07");
    assert_eq!(text(MAX_YEAR, 12, 31), "+262142-12-31");
    assert_eq!(text(MIN_YEAR, 1, 1), "-262143-01-01");
}

#[test]
fn dates_are_ordered_by_the_calendar() {
    let days = [
        Date::new(-5, 12, 31).unwrap(),
        Date::new(2022, 12, 31).unwrap(),
        Date::new(2023, 1, 1).unwrap(),
        Date::new(2023, 1, 2).unwrap(),
        Date::new(2023, 2, 1).unwrap(),
        Date::new(2024, 1, 1).unwrap(),
    ];
    for (i, a) in days.iter().enumerate() {
        for (j, b) in days.iter().enumerate() {
            assert_eq!(a.le(b), i <= j);
            let (x, y) = (
                NaiveDate::from_ymd_opt(a.year, a.month, a.day).unwrap(),
                NaiveDate::from_ymd_opt(b.year, b.month, b.day).unwrap(),
            );
            assert_eq!(a.le(b), x <= y);
        }
    }
}

#[test]
fn integers_as_text() {
    let text = |n: i64| {
        let mut out = String::from("x");
        append_i64(&mut out, n);
        out
    };
    assert_eq!(text(0), "x0");
    assert_eq!(text(7), "x7");
    assert_eq!(text(10), "x10");
    assert_eq!(text(-1), "x-1");
    assert_eq!(text(1234567890), "x1234567890");
    assert_eq!(text(i64::MAX), "x9223372036854775807");
    assert_eq!(text(i64::MIN), "x-9223372036854775808");
    let mut out = String::new();
    append_u64(&mut out, u64::MAX);
    assert_eq!(out, "18446744073709551615");
    for d in 0..10u8 {
        assert_eq!(digit_str(d), d.to_string());
    }
}

#[test]
fn integers_from_text() {
    assert_eq!(parse_i32("0"), Some(0));
    assert_eq!(parse_i32("2023"), Some(2023));
    assert_eq!(parse_i32("+5"), Some(5));
    assert_eq!(parse_i32("-5"), Some(-5));
    assert_eq!(parse_i32("-0"), Some(0));
    assert_eq!(parse_i32("007"), Some(7));
    assert_eq!(parse_i32("2147483647"), Some(i32::MAX));
    assert_eq!(parse_i32("-2147483648"), Some(i32::MIN));
    assert_eq!(parse_i32("2147483648"), None);
    assert_eq!(parse_i32("-2147483649"), None);
    assert_eq!(parse_i32("99999999999999999999999999"), None);
    assert_eq!(parse_i32("0000000000000000000000001"), Some(1));
    for text in ["", "+", "-", "--1", "+-1", "1-", "12a", "a12", " 1", "1 ", "1.0", "١٢"] {
        assert_eq!(parse_i32(text), None, "{:?}", text);
        assert!(text.parse::<i32>().is_err(), "{:?}", text);
    }
    for text in ["0", "+5", "-0", "007", "2147483647", "-2147483648", "2147483648", "-2147483649"] {
        assert_eq!(parse_i32(text), text.parse::<i32>().ok(), "{:?}", text);
    }
}

#[test]
fn trimming_drops_white_space_at_both_ends() {
    assert_eq!(trim("  a b  "), "a b");
    assert_eq!(trim("\t\r\n x \u{a0}\u{3000}"), "x");
    assert_eq!(trim(""), "");
    assert_eq!(trim("   "), "");
    assert_eq!(trim("x"), "x");
    assert_eq!(trim("\u{200b}x"), "\u{200b}x");
    for code in 0..0x3100u32 {
        if let Some(c) = char::from_u32(code) {
            assert_eq!(is_whitespace_char(c), c.is_whitespace(), "{:x}", code);
        }
    }
    for text in [" a ", "\u{2003}é\u{2028}", "a\u{85}", "\u{1680}\u{205f}"] {
        assert_eq!(trim(text), text.trim());
    }
}

#[test]
fn finding_a_character() {
    assert_eq!(find("a,b,c", ',', 0), 1);
    assert_eq!(find("a,b,c", ',', 1), 1);
    assert_eq!(find("a,b,c", ',', 2), 3);
    assert_eq!(find("a,b,c", ',', 4), 5);
    assert_eq!(find("a,b,c", ',', 5), 5);
    assert_eq!(find("abc", ',', 0), 3);
    assert_eq!(find("", ',', 0), 0);
    assert_eq!(find("é,é", ',', 0), 1);
}
