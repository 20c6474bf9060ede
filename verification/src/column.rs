//! The columns of a transaction row: which key stands for which field, and
//! how the loosely typed value of a column becomes a typed one.

use crate::json::{Json, JsonNumber, JsonNumberView, JsonView};
use vstd::prelude::*;
use vstd::string::*;

verus! {

/// A column of a transaction row.
#[derive(Debug, Clone, Copy, PartialEq, Eq, Structural)]
pub enum Column {
    TransactionId,
    Date,
    Amount,
    Currency,
    AccountId,
    AccountName,
    BankId,
    BankName,
    Ks,
    Vs,
    Ss,
    UserIdentification,
    RemittanceInfo,
    TransactionType,
    Executor,
    Specification,
    Comment,
    Bic,
    OrderId,
    PayerReference,
}

impl Column {
    /// The key under which a row holds the column.
    pub open spec fn spec_key(self) -> Seq<char> {
        match self {
            Column::TransactionId => "column22"@,
            Column::Date => "column0"@,
            Column::Amount => "column1"@,
            Column::Currency => "column14"@,
            Column::AccountId => "column2"@,
            Column::AccountName => "column10"@,
            Column::BankId => "column3"@,
            Column::BankName => "column12"@,
            Column::Ks => "column4"@,
            Column::Vs => "column5"@,
            Column::Ss => "column6"@,
            Column::UserIdentification => "column7"@,
            Column::RemittanceInfo => "column16"@,
            Column::TransactionType => "column8"@,
            Column::Executor => "column9"@,
            Column::Specification => "column18"@,
            Column::Comment => "column25"@,
            Column::Bic => "column26"@,
            Column::OrderId => "column17"@,
            Column::PayerReference => "column27"@,
        }
    }

    /// The key under which a row holds the column.
    pub fn key(&self) -> (r: &'static str)
        ensures
            r@ == self.spec_key(),
    {
        match self {
            Column::TransactionId => "column22",
            Column::Date => "column0",
            Column::Amount => "column1",
            Column::Currency => "column14",
            Column::AccountId => "column2",
            Column::AccountName => "column10",
            Column::BankId => "column3",
            Column::BankName => "column12",
            Column::Ks => "column4",
            Column::Vs => "column5",
            Column::Ss => "column6",
            Column::UserIdentification => "column7",
            Column::RemittanceInfo => "column16",
            Column::TransactionType => "column8",
            Column::Executor => "column9",
            Column::Specification => "column18",
            Column::Comment => "column25",
            Column::Bic => "column26",
            Column::OrderId => "column17",
            Column::PayerReference => "column27",
        }
    }

    /// Whether a row without the column is no transaction.
    pub open spec fn spec_is_mandatory(self) -> bool {
        self == Column::TransactionId || self == Column::Date || self == Column::Amount || self
            == Column::Currency
    }

    /// Whether a row without the column is no transaction.
    pub fn is_mandatory(&self) -> (r: bool)
        ensures
            r == self.spec_is_mandatory(),
    {
        match self {
            Column::TransactionId | Column::Date | Column::Amount | Column::Currency => true,
            _ => false,
        }
    }
}

/// The scalar that a column wraps: a string, a number or a boolean. Anything
/// else (null, an array, an object) is kept only as `Other`.
#[derive(Debug, Clone)]
pub enum ColumnValue {
    Text(String),
    Number(JsonNumber),
    Bool(bool),
    Other,
}

/// A scalar as values of the mathematical model.
pub enum ColumnValueView {
    Text(Seq<char>),
    Number(JsonNumberView),
    Bool(bool),
    Other,
}

impl View for ColumnValue {
    type V = ColumnValueView;

    open spec fn view(&self) -> ColumnValueView {
        match self {
            ColumnValue::Text(s) => ColumnValueView::Text(s@),
            ColumnValue::Number(n) => ColumnValueView::Number(n@),
            ColumnValue::Bool(b) => ColumnValueView::Bool(*b),
            ColumnValue::Other => ColumnValueView::Other,
        }
    }
}

impl DeepView for ColumnValue {
    type V = ColumnValueView;

    open spec fn deep_view(&self) -> ColumnValueView {
        self@
    }
}

/// The scalar of a JSON value.
pub open spec fn spec_column_value(value: JsonView) -> ColumnValueView {
    match value {
        JsonView::Text(s) => ColumnValueView::Text(s),
        JsonView::Number(n) => ColumnValueView::Number(n),
        JsonView::Bool(b) => ColumnValueView::Bool(b),
        _ => ColumnValueView::Other,
    }
}

/// What a row holds for a column.
#[derive(Debug, Clone)]
pub enum Slot {
    /// The row has no member under the column's key, or has null there.
    Missing,
    /// The member is an object with a member `value`.
    Filled(ColumnValue),
    /// The member is something else.
    Malformed,
}

/// What a row holds for a column, as values of the mathematical model.
pub enum SlotView {
    Missing,
    Filled(ColumnValueView),
    Malformed,
}

impl View for Slot {
    type V = SlotView;

    open spec fn view(&self) -> SlotView {
        match self {
            Slot::Missing => SlotView::Missing,
            Slot::Filled(v) => SlotView::Filled(v@),
            Slot::Malformed => SlotView::Malformed,
        }
    }
}

/// What a row holds under a key.
pub open spec fn spec_slot(row: JsonView, key: Seq<char>) -> SlotView {
    match row.get(key) {
        None => SlotView::Missing,
        Some(JsonView::Null) => SlotView::Missing,
        Some(JsonView::Object(members)) => match JsonView::Object(members).get("value"@) {
            Some(value) => SlotView::Filled(spec_column_value(value)),
            None => SlotView::Malformed,
        },
        Some(_) => SlotView::Malformed,
    }
}

/// The text of a scalar: a string as it is, a number in its decimal form, a
/// boolean as `true` or `false`. Anything else has no text.
pub open spec fn spec_json_value_to_string(value: ColumnValueView) -> Option<Seq<char>> {
    match value {
        ColumnValueView::Text(s) => Some(s),
        ColumnValueView::Number(n) => Some(n.text),
        ColumnValueView::Bool(b) => Some(
            if b {
                "true"@
            } else {
                "false"@
            },
        ),
        ColumnValueView::Other => None,
    }
}

/// The text of an optional column: that of its scalar, unless the column is
/// missing, has no text, or has the empty text.
pub open spec fn spec_optional_string(column: Option<ColumnValueView>) -> Option<Seq<char>> {
    match column {
        Some(value) => match spec_json_value_to_string(value) {
            Some(s) => if s.len() == 0 {
                None
            } else {
                Some(s)
            },
            None => None,
        },
        None => None,
    }
}

/// The integer of an optional column: that of a number which is an integer of
/// 64 bits; nothing else has one.
pub open spec fn spec_optional_i64(column: Option<ColumnValueView>) -> Option<i64> {
    match column {
        Some(ColumnValueView::Number(n)) => n.integer,
        _ => None,
    }
}

impl ColumnValue {
    /// The scalar of a JSON value.
    pub fn from_json(value: &Json) -> (r: ColumnValue)
        ensures
            r@ == spec_column_value(value@),
    {
        match value {
            Json::Text(s) => ColumnValue::Text(s.clone()),
            Json::Number(n) => ColumnValue::Number(
                JsonNumber { text: n.text.clone(), integer: n.integer },
            ),
            Json::Bool(b) => ColumnValue::Bool(*b),
            _ => ColumnValue::Other,
        }
    }
}

impl Slot {
    /// Reads what a row holds for a column.
    pub fn read(row: &Json, column: Column) -> (r: Slot)
        ensures
            r@ == spec_slot(row@, column.spec_key()),
    {
        match row.get(column.key()) {
            None => Slot::Missing,
            Some(found) => match found {
                Json::Null => Slot::Missing,
                Json::Object(_) => match found.get("value") {
                    Some(value) => Slot::Filled(ColumnValue::from_json(value)),
                    None => Slot::Malformed,
                },
                _ => Slot::Malformed,
            },
        }
    }
}

/// The text of a scalar: a string as it is, a number in its decimal form, a
/// boolean as `true` or `false`. Anything else has no text.
pub fn json_value_to_string(value: &ColumnValue) -> (r: Option<String>)
    ensures
        r.deep_view() == spec_json_value_to_string(value@),
{
    match value {
        ColumnValue::Text(s) => Some(s.clone()),
        ColumnValue::Number(n) => Some(n.text.clone()),
        ColumnValue::Bool(b) => Some(
            if *b {
                String::from_str("true")
            } else {
                String::from_str("false")
            },
        ),
        ColumnValue::Other => None,
    }
}

/// The text of an optional column: that of its scalar, unless the column is
/// missing, has no text, or has the empty text.
pub fn optional_string(value: &Option<ColumnValue>) -> (r: Option<String>)
    ensures
        r.deep_view() == spec_optional_string(value.deep_view()),
{
    match value {
        Some(v) => match json_value_to_string(v) {
            Some(s) => if s.as_str().is_empty() {
                None
            } else {
                Some(s)
            },
            None => None,
        },
        None => None,
    }
}

/// The integer of an optional column: that of a number which is an integer of
/// 64 bits; nothing else has one.
pub fn optional_i64(value: &Option<ColumnValue>) -> (r: Option<i64>)
    ensures
        r == spec_optional_i64(value.deep_view()),
{
    match value {
        Some(ColumnValue::Number(n)) => n.integer,
        _ => None,
    }
}

} // verus!
