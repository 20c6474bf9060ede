//! A transaction row: first as the bank sent it, column by column, then as a
//! typed record.

use crate::amount::{spec_parse_amount, parse_amount, Amount};
use crate::column::{
    json_value_to_string, optional_i64, optional_string, spec_json_value_to_string,
    spec_optional_i64, spec_optional_string, spec_slot, Column, ColumnValue, ColumnValueView,
    Slot, SlotView,
};
use crate::date::{parse_date, spec_parse_date, Date};
use crate::error::FioError;
use crate::json::{Json, JsonView};
use vstd::prelude::*;

verus! {

/// One ledger entry.
#[derive(Debug, Clone)]
pub struct Transaction {
    pub transaction_id: String,
    pub date: Date,
    pub amount: Amount,
    pub currency: String,
    pub account_id: Option<String>,
    pub account_name: Option<String>,
    pub bank_id: Option<String>,
    pub bank_name: Option<String>,
    pub ks: Option<String>,
    pub vs: Option<String>,
    pub ss: Option<String>,
    pub user_identification: Option<String>,
    pub remittance_info: Option<String>,
    pub transaction_type: Option<String>,
    pub executor: Option<String>,
    pub specification: Option<String>,
    pub comment: Option<String>,
    pub bic: Option<String>,
    pub order_id: Option<i64>,
    pub payer_reference: Option<String>,
}

/// A ledger entry as values of the mathematical model.
pub struct TransactionView {
    pub transaction_id: Seq<char>,
    pub date: Date,
    pub amount: Amount,
    pub currency: Seq<char>,
    pub account_id: Option<Seq<char>>,
    pub account_name: Option<Seq<char>>,
    pub bank_id: Option<Seq<char>>,
    pub bank_name: Option<Seq<char>>,
    pub ks: Option<Seq<char>>,
    pub vs: Option<Seq<char>>,
    pub ss: Option<Seq<char>>,
    pub user_identification: Option<Seq<char>>,
    pub remittance_info: Option<Seq<char>>,
    pub transaction_type: Option<Seq<char>>,
    pub executor: Option<Seq<char>>,
    pub specification: Option<Seq<char>>,
    pub comment: Option<Seq<char>>,
    pub bic: Option<Seq<char>>,
    pub order_id: Option<i64>,
    pub payer_reference: Option<Seq<char>>,
}

impl View for Transaction {
    type V = TransactionView;

    open spec fn view(&self) -> TransactionView {
        TransactionView {
            transaction_id: self.transaction_id@,
            date: self.date,
            amount: self.amount,
            currency: self.currency@,
            account_id: self.account_id.deep_view(),
            account_name: self.account_name.deep_view(),
            bank_id: self.bank_id.deep_view(),
            bank_name: self.bank_name.deep_view(),
            ks: self.ks.deep_view(),
            vs: self.vs.deep_view(),
            ss: self.ss.deep_view(),
            user_identification: self.user_identification.deep_view(),
            remittance_info: self.remittance_info.deep_view(),
            transaction_type: self.transaction_type.deep_view(),
            executor: self.executor.deep_view(),
            specification: self.specification.deep_view(),
            comment: self.comment.deep_view(),
            bic: self.bic.deep_view(),
            order_id: self.order_id,
            payer_reference: self.payer_reference.deep_view(),
        }
    }
}

impl Transaction {
    /// Whether the date is an existing day and the amount one that a decimal
    /// can hold.
    pub open spec fn is_valid(&self) -> bool {
        self.date.is_valid() && self.amount.is_valid()
    }
}

impl DeepView for Transaction {
    type V = TransactionView;

    open spec fn deep_view(&self) -> TransactionView {
        self@
    }
}

/// A transaction row as the bank sent it: the identifier as the scalar it
/// is, the date and the currency as strings, the amount as the text of its
/// numeric literal, each optional column as the scalar it wraps.
#[derive(Debug, Clone)]
pub struct RawTransaction {
    pub transaction_id: ColumnValue,
    pub date: String,
    pub amount: String,
    pub currency: String,
    pub account_id: Option<ColumnValue>,
    pub account_name: Option<ColumnValue>,
    pub bank_id: Option<ColumnValue>,
    pub bank_name: Option<ColumnValue>,
    pub ks: Option<ColumnValue>,
    pub vs: Option<ColumnValue>,
    pub ss: Option<ColumnValue>,
    pub user_identification: Option<ColumnValue>,
    pub remittance_info: Option<ColumnValue>,
    pub transaction_type: Option<ColumnValue>,
    pub executor: Option<ColumnValue>,
    pub specification: Option<ColumnValue>,
    pub comment: Option<ColumnValue>,
    pub bic: Option<ColumnValue>,
    pub order_id: Option<ColumnValue>,
    pub payer_reference: Option<ColumnValue>,
}

/// A row as the bank sent it, as values of the mathematical model.
pub struct RawTransactionView {
    pub transaction_id: ColumnValueView,
    pub date: Seq<char>,
    pub amount: Seq<char>,
    pub currency: Seq<char>,
    pub account_id: Option<ColumnValueView>,
    pub account_name: Option<ColumnValueView>,
    pub bank_id: Option<ColumnValueView>,
    pub bank_name: Option<ColumnValueView>,
    pub ks: Option<ColumnValueView>,
    pub vs: Option<ColumnValueView>,
    pub ss: Option<ColumnValueView>,
    pub user_identification: Option<ColumnValueView>,
    pub remittance_info: Option<ColumnValueView>,
    pub transaction_type: Option<ColumnValueView>,
    pub executor: Option<ColumnValueView>,
    pub specification: Option<ColumnValueView>,
    pub comment: Option<ColumnValueView>,
    pub bic: Option<ColumnValueView>,
    pub order_id: Option<ColumnValueView>,
    pub payer_reference: Option<ColumnValueView>,
}

impl View for RawTransaction {
    type V = RawTransactionView;

    open spec fn view(&self) -> RawTransactionView {
        RawTransactionView {
            transaction_id: self.transaction_id@,
            date: self.date@,
            amount: self.amount@,
            currency: self.currency@,
            account_id: self.account_id.deep_view(),
            account_name: self.account_name.deep_view(),
            bank_id: self.bank_id.deep_view(),
            bank_name: self.bank_name.deep_view(),
            ks: self.ks.deep_view(),
            vs: self.vs.deep_view(),
            ss: self.ss.deep_view(),
            user_identification: self.user_identification.deep_view(),
            remittance_info: self.remittance_info.deep_view(),
            transaction_type: self.transaction_type.deep_view(),
            executor: self.executor.deep_view(),
            specification: self.specification.deep_view(),
            comment: self.comment.deep_view(),
            bic: self.bic.deep_view(),
            order_id: self.order_id.deep_view(),
            payer_reference: self.payer_reference.deep_view(),
        }
    }
}

impl DeepView for RawTransaction {
    type V = RawTransactionView;

    open spec fn deep_view(&self) -> RawTransactionView {
        self@
    }
}

/// The scalar of a mandatory column, whatever its type.
pub open spec fn spec_required_value(slot: SlotView) -> Option<ColumnValueView> {
    match slot {
        SlotView::Filled(value) => Some(value),
        _ => None,
    }
}

/// The text of a mandatory column that must hold a string.
pub open spec fn spec_required_text(slot: SlotView) -> Option<Seq<char>> {
    match slot {
        SlotView::Filled(ColumnValueView::Text(s)) => Some(s),
        _ => None,
    }
}

/// The text of a mandatory column that must hold a numeric literal, given
/// as a string or as a number.
pub open spec fn spec_required_literal(slot: SlotView) -> Option<Seq<char>> {
    match slot {
        SlotView::Filled(ColumnValueView::Text(s)) => Some(s),
        SlotView::Filled(ColumnValueView::Number(n)) => Some(n.text),
        _ => None,
    }
}

/// The scalar of an optional column, or nothing where the column is
/// missing. A malformed column has neither.
pub open spec fn spec_optional_value(slot: SlotView) -> Option<Option<ColumnValueView>> {
    match slot {
        SlotView::Missing => Some(None),
        SlotView::Filled(value) => Some(Some(value)),
        SlotView::Malformed => None,
    }
}

/// The row as the bank sent it, if each mandatory column is there in its
/// type and no column is malformed.
pub open spec fn spec_raw_transaction(row: JsonView) -> Option<RawTransactionView> {
    let transaction_id = spec_required_value(spec_slot(row, Column::TransactionId.spec_key()));
    let date = spec_required_text(spec_slot(row, Column::Date.spec_key()));
    let amount = spec_required_literal(spec_slot(row, Column::Amount.spec_key()));
    let currency = spec_required_text(spec_slot(row, Column::Currency.spec_key()));
    let account_id = spec_optional_value(spec_slot(row, Column::AccountId.spec_key()));
    let account_name = spec_optional_value(spec_slot(row, Column::AccountName.spec_key()));
    let bank_id = spec_optional_value(spec_slot(row, Column::BankId.spec_key()));
    let bank_name = spec_optional_value(spec_slot(row, Column::BankName.spec_key()));
    let ks = spec_optional_value(spec_slot(row, Column::Ks.spec_key()));
    let vs = spec_optional_value(spec_slot(row, Column::Vs.spec_key()));
    let ss = spec_optional_value(spec_slot(row, Column::Ss.spec_key()));
    let user_identification = spec_optional_value(spec_slot(row, Column::UserIdentification.spec_key()));
    let remittance_info = spec_optional_value(spec_slot(row, Column::RemittanceInfo.spec_key()));
    let transaction_type = spec_optional_value(spec_slot(row, Column::TransactionType.spec_key()));
    let executor = spec_optional_value(spec_slot(row, Column::Executor.spec_key()));
    let specification = spec_optional_value(spec_slot(row, Column::Specification.spec_key()));
    let comment = spec_optional_value(spec_slot(row, Column::Comment.spec_key()));
    let bic = spec_optional_value(spec_slot(row, Column::Bic.spec_key()));
    let order_id = spec_optional_value(spec_slot(row, Column::OrderId.spec_key()));
    let payer_reference = spec_optional_value(spec_slot(row, Column::PayerReference.spec_key()));
    if transaction_id is Some
        && date is Some
        && amount is Some
        && currency is Some
        && account_id is Some
        && account_name is Some
        && bank_id is Some
        && bank_name is Some
        && ks is Some
        && vs is Some
        && ss is Some
        && user_identification is Some
        && remittance_info is Some
        && transaction_type is Some
        && executor is Some
        && specification is Some
        && comment is Some
        && bic is Some
        && order_id is Some
        && payer_reference is Some {
        Some(
            RawTransactionView {
                transaction_id: transaction_id.unwrap(),
                date: date.unwrap(),
                amount: amount.unwrap(),
                currency: currency.unwrap(),
                account_id: account_id.unwrap(),
                account_name: account_name.unwrap(),
                bank_id: bank_id.unwrap(),
                bank_name: bank_name.unwrap(),
                ks: ks.unwrap(),
                vs: vs.unwrap(),
                ss: ss.unwrap(),
                user_identification: user_identification.unwrap(),
                remittance_info: remittance_info.unwrap(),
                transaction_type: transaction_type.unwrap(),
                executor: executor.unwrap(),
                specification: specification.unwrap(),
                comment: comment.unwrap(),
                bic: bic.unwrap(),
                order_id: order_id.unwrap(),
                payer_reference: payer_reference.unwrap(),
            },
        )
    } else {
        None
    }
}

/// The record of a row, given what its date and its amount were read as:
/// the identifier as text, each optional text unless empty, the order number
/// if it is an integer. A row whose identifier has no text, or whose date or
/// amount could not be read, has no record.
pub open spec fn spec_transaction_from(
    raw: RawTransactionView,
    date: Option<Date>,
    amount: Option<Amount>,
) -> Option<TransactionView> {
    match (spec_json_value_to_string(raw.transaction_id), date, amount) {
        (Some(transaction_id), Some(date), Some(amount)) => Some(
            TransactionView {
                transaction_id,
                date,
                amount,
                currency: raw.currency,
                account_id: spec_optional_string(raw.account_id),
                account_name: spec_optional_string(raw.account_name),
                bank_id: spec_optional_string(raw.bank_id),
                bank_name: spec_optional_string(raw.bank_name),
                ks: spec_optional_string(raw.ks),
                vs: spec_optional_string(raw.vs),
                ss: spec_optional_string(raw.ss),
                user_identification: spec_optional_string(raw.user_identification),
                remittance_info: spec_optional_string(raw.remittance_info),
                transaction_type: spec_optional_string(raw.transaction_type),
                executor: spec_optional_string(raw.executor),
                specification: spec_optional_string(raw.specification),
                comment: spec_optional_string(raw.comment),
                bic: spec_optional_string(raw.bic),
                order_id: spec_optional_i64(raw.order_id),
                payer_reference: spec_optional_string(raw.payer_reference),
            },
        ),
        _ => None,
    }
}

/// The record of a row: as [`spec_transaction_from`] says, with the date
/// read from the first ten characters of its text and the amount from its
/// numeric literal.
pub open spec fn spec_transaction(raw: RawTransactionView) -> Option<TransactionView> {
    spec_transaction_from(raw, spec_parse_date(raw.date), spec_parse_amount(raw.amount))
}

/// The scalar of a mandatory column, whatever its type.
fn required_value(slot: Slot) -> (r: Option<ColumnValue>)
    ensures
        r.deep_view() == spec_required_value(slot@),
{
    match slot {
        Slot::Filled(value) => Some(value),
        _ => None,
    }
}

/// The text of a mandatory column that must hold a string.
fn required_text(slot: Slot) -> (r: Option<String>)
    ensures
        r.deep_view() == spec_required_text(slot@),
{
    match slot {
        Slot::Filled(ColumnValue::Text(s)) => Some(s),
        _ => None,
    }
}

/// The text of a mandatory column that must hold a numeric literal.
fn required_literal(slot: Slot) -> (r: Option<String>)
    ensures
        r.deep_view() == spec_required_literal(slot@),
{
    match slot {
        Slot::Filled(ColumnValue::Text(s)) => Some(s),
        Slot::Filled(ColumnValue::Number(n)) => Some(n.text),
        _ => None,
    }
}

/// The scalar of an optional column, or nothing where the column is
/// missing. A malformed column has neither.
fn optional_value(slot: Slot) -> (r: Option<Option<ColumnValue>>)
    ensures
        r.deep_view() == spec_optional_value(slot@),
{
    match slot {
        Slot::Missing => Some(None),
        Slot::Filled(value) => Some(Some(value)),
        Slot::Malformed => None,
    }
}

impl RawTransaction {
    /// Reads a row column by column. Fails with `InvalidResponse` where a
    /// mandatory column is missing or of the wrong type, or any column is
    /// malformed.
    pub fn from_json(row: &Json) -> (r: Result<RawTransaction, FioError>)
        ensures
            match spec_raw_transaction(row@) {
                Some(raw) => r is Ok && r.unwrap()@ == raw,
                None => r is Err && r.unwrap_err() is InvalidResponse,
            },
    {
        let transaction_id = match required_value(Slot::read(row, Column::TransactionId)) {
            Some(v) => v,
            None => return Err(FioError::InvalidResponse),
        };
        let date = match required_text(Slot::read(row, Column::Date)) {
            Some(v) => v,
            None => return Err(FioError::InvalidResponse),
        };
        let amount = match required_literal(Slot::read(row, Column::Amount)) {
            Some(v) => v,
            None => return Err(FioError::InvalidResponse),
        };
        let currency = match required_text(Slot::read(row, Column::Currency)) {
            Some(v) => v,
            None => return Err(FioError::InvalidResponse),
        };
        let account_id = match optional_value(Slot::read(row, Column::AccountId)) {
            Some(v) => v,
            None => return Err(FioError::InvalidResponse),
        };
        let account_name = match optional_value(Slot::read(row, Column::AccountName)) {
            Some(v) => v,
            None => return Err(FioError::InvalidResponse),
        };
        let bank_id = match optional_value(Slot::read(row, Column::BankId)) {
            Some(v) => v,
            None => return Err(FioError::InvalidResponse),
        };
        let bank_name = match optional_value(Slot::read(row, Column::BankName)) {
            Some(v) => v,
            None => return Err(FioError::InvalidResponse),
        };
        let ks = match optional_value(Slot::read(row, Column::Ks)) {
            Some(v) => v,
            None => return Err(FioError::InvalidResponse),
        };
        let vs = match optional_value(Slot::read(row, Column::Vs)) {
            Some(v) => v,
            None => return Err(FioError::InvalidResponse),
        };
        let ss = match optional_value(Slot::read(row, Column::Ss)) {
            Some(v) => v,
            None => return Err(FioError::InvalidResponse),
        };
        let user_identification = match optional_value(Slot::read(row, Column::UserIdentification)) {
            Some(v) => v,
            None => return Err(FioError::InvalidResponse),
        };
        let remittance_info = match optional_value(Slot::read(row, Column::RemittanceInfo)) {
            Some(v) => v,
            None => return Err(FioError::InvalidResponse),
        };
        let transaction_type = match optional_value(Slot::read(row, Column::TransactionType)) {
            Some(v) => v,
            None => return Err(FioError::InvalidResponse),
        };
        let executor = match optional_value(Slot::read(row, Column::Executor)) {
            Some(v) => v,
            None => return Err(FioError::InvalidResponse),
        };
        let specification = match optional_value(Slot::read(row, Column::Specification)) {
            Some(v) => v,
            None => return Err(FioError::InvalidResponse),
        };
        let comment = match optional_value(Slot::read(row, Column::Comment)) {
            Some(v) => v,
            None => return Err(FioError::InvalidResponse),
        };
        let bic = match optional_value(Slot::read(row, Column::Bic)) {
            Some(v) => v,
            None => return Err(FioError::InvalidResponse),
        };
        let order_id = match optional_value(Slot::read(row, Column::OrderId)) {
            Some(v) => v,
            None => return Err(FioError::InvalidResponse),
        };
        let payer_reference = match optional_value(Slot::read(row, Column::PayerReference)) {
            Some(v) => v,
            None => return Err(FioError::InvalidResponse),
        };
        Ok(
            RawTransaction {
                transaction_id,
                date,
                amount,
                currency,
                account_id,
                account_name,
                bank_id,
                bank_name,
                ks,
                vs,
                ss,
                user_identification,
                remittance_info,
                transaction_type,
                executor,
                specification,
                comment,
                bic,
                order_id,
                payer_reference,
            },
        )
    }
}

impl Transaction {
    /// Makes the typed record of a row, given what its date and its amount
    /// were read as. Fails with `InvalidResponse` where the identifier has no
    /// text, or the date or the amount is missing.
    pub fn from_raw(raw: &RawTransaction, date: Option<Date>, amount: Option<Amount>) -> (r: Result<
        Transaction,
        FioError,
    >)
        ensures
            match spec_transaction_from(raw@, date, amount) {
                Some(transaction) => r is Ok && r.unwrap()@ == transaction,
                None => r is Err && r.unwrap_err() is InvalidResponse,
            },
    {
        let transaction_id = match json_value_to_string(&raw.transaction_id) {
            Some(id) => id,
            None => return Err(FioError::InvalidResponse),
        };
        let date = match date {
            Some(date) => date,
            None => return Err(FioError::InvalidResponse),
        };
        let amount = match amount {
            Some(amount) => amount,
            None => return Err(FioError::InvalidResponse),
        };
        Ok(
            Transaction {
                transaction_id,
                date,
                amount,
                currency: raw.currency.clone(),
                account_id: optional_string(&raw.account_id),
                account_name: optional_string(&raw.account_name),
                bank_id: optional_string(&raw.bank_id),
                bank_name: optional_string(&raw.bank_name),
                ks: optional_string(&raw.ks),
                vs: optional_string(&raw.vs),
                ss: optional_string(&raw.ss),
                user_identification: optional_string(&raw.user_identification),
                remittance_info: optional_string(&raw.remittance_info),
                transaction_type: optional_string(&raw.transaction_type),
                executor: optional_string(&raw.executor),
                specification: optional_string(&raw.specification),
                comment: optional_string(&raw.comment),
                bic: optional_string(&raw.bic),
                order_id: optional_i64(&raw.order_id),
                payer_reference: optional_string(&raw.payer_reference),
            },
        )
    }

    /// Makes the typed record of a row: the date is read from the first ten
    /// characters of its text, the amount from its numeric literal. Fails
    /// with `InvalidResponse` where the identifier has no text or the date or
    /// the amount cannot be read.
    pub fn try_from(raw: &RawTransaction) -> (r: Result<Transaction, FioError>)
        ensures
            match spec_transaction(raw@) {
                Some(transaction) => r is Ok && r.unwrap()@ == transaction,
                None => r is Err && r.unwrap_err() is InvalidResponse,
            },
            r matches Ok(transaction) ==> transaction.is_valid(),
    {
        let date = parse_date(raw.date.as_str());
        let amount = parse_amount(raw.amount.as_str());
        Transaction::from_raw(raw, date, amount)
    }
}

} // verus!
