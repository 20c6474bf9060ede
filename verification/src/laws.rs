//! What holds of the decoding of transaction rows, whatever the document.

use crate::column::{
    spec_column_value, spec_json_value_to_string, spec_optional_string, spec_slot, Column,
    ColumnValueView, SlotView,
};
use crate::amount::spec_parse_amount;
use crate::date::{spec_parse_date, ymd_text_date, Date};
use crate::json::{JsonNumberView, JsonView};
use crate::models::{
    spec_account_info, spec_decode_transactions, spec_optional_date_field, spec_raw_rows,
    spec_response, AccountInfoView,
};
use crate::transaction::{
    spec_raw_transaction, spec_required_literal, spec_required_text, spec_required_value,
    spec_transaction, TransactionView,
};
use vstd::prelude::*;

verus! {

/// The record of a row of the document, if it has one.
pub open spec fn spec_row_record(row: JsonView) -> Option<TransactionView> {
    match spec_raw_transaction(row) {
        Some(raw) => spec_transaction(raw),
        None => None,
    }
}

/// The entries of the array `accountStatement.transactionList.transaction`;
/// none where the document has no such array.
pub open spec fn spec_rows_of(document: JsonView) -> Seq<JsonView> {
    match document.get("accountStatement"@) {
        Some(statement) => match statement.get("transactionList"@) {
            Some(list) => match list.get("transaction"@) {
                Some(JsonView::Array(items)) => items,
                _ => Seq::empty(),
            },
            None => Seq::empty(),
        },
        None => Seq::empty(),
    }
}

/// Whether two rows hold the same under every column but one.
pub open spec fn rows_agree_except(first: JsonView, second: JsonView, column: Column) -> bool {
    forall|other: Column|
        other != column ==> #[trigger] spec_slot(first, other.spec_key()) == spec_slot(
            second,
            other.spec_key(),
        )
}

/// Whether the field of a column is absent from a record. The field of a
/// mandatory column never is.
pub open spec fn field_is_absent(record: TransactionView, column: Column) -> bool {
    match column {
        Column::TransactionId | Column::Date | Column::Amount | Column::Currency => false,
        Column::AccountId => record.account_id is None,
        Column::AccountName => record.account_name is None,
        Column::BankId => record.bank_id is None,
        Column::BankName => record.bank_name is None,
        Column::Ks => record.ks is None,
        Column::Vs => record.vs is None,
        Column::Ss => record.ss is None,
        Column::UserIdentification => record.user_identification is None,
        Column::RemittanceInfo => record.remittance_info is None,
        Column::TransactionType => record.transaction_type is None,
        Column::Executor => record.executor is None,
        Column::Specification => record.specification is None,
        Column::Comment => record.comment is None,
        Column::Bic => record.bic is None,
        Column::OrderId => record.order_id is None,
        Column::PayerReference => record.payer_reference is None,
    }
}

/// Whether a row gives each mandatory column in a form that can be read: an
/// identifier with a text, a string that starts with a date, a numeric
/// literal, a string for the currency.
pub open spec fn mandatory_columns_readable(row: JsonView) -> bool {
    &&& spec_required_value(spec_slot(row, Column::TransactionId.spec_key())) matches Some(id)
        && spec_json_value_to_string(id) is Some
    &&& spec_required_text(spec_slot(row, Column::Date.spec_key())) matches Some(date)
        && spec_parse_date(date) is Some
    &&& spec_required_literal(spec_slot(row, Column::Amount.spec_key())) matches Some(amount)
        && spec_parse_amount(amount) is Some
    &&& spec_required_text(spec_slot(row, Column::Currency.spec_key())) is Some
}

/// The keys of the columns differ from one another.
pub proof fn lemma_column_keys_differ(first: Column, second: Column)
    requires
        first != second,
    ensures
        first.spec_key() != second.spec_key(),
{
    reveal_strlit("column22");
    reveal_strlit("column0");
    reveal_strlit("column1");
    reveal_strlit("column14");
    reveal_strlit("column2");
    reveal_strlit("column10");
    reveal_strlit("column3");
    reveal_strlit("column12");
    reveal_strlit("column4");
    reveal_strlit("column5");
    reveal_strlit("column6");
    reveal_strlit("column7");
    reveal_strlit("column16");
    reveal_strlit("column8");
    reveal_strlit("column9");
    reveal_strlit("column18");
    reveal_strlit("column25");
    reveal_strlit("column26");
    reveal_strlit("column17");
    reveal_strlit("column27");
    let a = first.spec_key();
    let b = second.spec_key();
    if a.len() == b.len() {
        assert(a[6] != b[6] || (a.len() == 8 && a[7] != b[7]));
    }
}

/// The transactions of a document are as many as the entries of its array of
/// rows, and the transaction at each place is the record of the row at that
/// place.
pub proof fn lemma_transactions_follow_rows(document: JsonView)
    requires
        spec_decode_transactions(document) is Some,
    ensures
        spec_decode_transactions(document).unwrap().len() == spec_rows_of(document).len(),
        forall|i: int|
            0 <= i < spec_rows_of(document).len() ==> spec_row_record(
                #[trigger] spec_rows_of(document)[i],
            ) == Some(spec_decode_transactions(document).unwrap()[i]),
{
    let rows = spec_rows_of(document);
    assert forall|i: int| 0 <= i < rows.len() implies spec_row_record(#[trigger] rows[i]) == Some(
        spec_decode_transactions(document).unwrap()[i],
    ) by {}
}

/// A document with a row that has no record has no transactions at all.
pub proof fn lemma_bad_row_fails_document(document: JsonView, i: int)
    requires
        0 <= i < spec_rows_of(document).len(),
        spec_row_record(spec_rows_of(document)[i]) is None,
    ensures
        spec_decode_transactions(document) is None,
{
    if spec_decode_transactions(document) is Some {
        lemma_transactions_follow_rows(document);
    }
}

/// A row in which every mandatory column can be read and no column is
/// malformed has a record, and in it the field of each optional column that
/// the row lacks is absent.
pub proof fn lemma_row_without_optional_columns(row: JsonView)
    requires
        mandatory_columns_readable(row),
        forall|column: Column|
            !column.spec_is_mandatory() ==> !(#[trigger] spec_slot(row, column.spec_key())
                is Malformed),
    ensures
        spec_row_record(row) is Some,
        forall|column: Column|
            !column.spec_is_mandatory() && (#[trigger] spec_slot(row, column.spec_key()))
                is Missing ==> field_is_absent(spec_row_record(row).unwrap(), column),
{
}

/// A row that lacks a mandatory column has no record.
pub proof fn lemma_row_without_mandatory_column(row: JsonView, column: Column)
    requires
        column.spec_is_mandatory(),
        spec_slot(row, column.spec_key()) is Missing,
    ensures
        spec_row_record(row) is None,
{
}

/// Only the first ten characters of a text count for its date; a text of
/// fewer than ten characters has none.
pub proof fn lemma_date_of_prefix(raw: Seq<char>)
    ensures
        raw.len() < 10 ==> spec_parse_date(raw) is None,
        raw.len() >= 10 ==> spec_parse_date(raw) == ymd_text_date(raw.subrange(0, 10)),
        raw.len() >= 10 ==> spec_parse_date(raw) == spec_parse_date(raw.subrange(0, 10)),
{
    if raw.len() >= 10 {
        assert(raw.subrange(0, 10).subrange(0, 10) =~= raw.subrange(0, 10));
    }
}

/// A number has the text of the string that is written as the number is.
pub proof fn lemma_number_reads_as_string(number: JsonNumberView)
    ensures
        spec_json_value_to_string(spec_column_value(JsonView::Number(number)))
            == spec_json_value_to_string(spec_column_value(JsonView::Text(number.text))),
        spec_optional_string(Some(ColumnValueView::Number(number))) == spec_optional_string(
            Some(ColumnValueView::Text(number.text)),
        ),
{
}

/// Two rows that differ in one column only, where one holds a number and the
/// other the string that is written as that number is, have the same record.
/// This holds of every column but the date and the currency, which take a
/// string only, and the order number, which takes a number only.
pub proof fn lemma_row_number_or_string(
    first: JsonView,
    second: JsonView,
    column: Column,
    number: JsonNumberView,
)
    requires
        column != Column::Date && column != Column::Currency && column != Column::OrderId,
        rows_agree_except(first, second, column),
        spec_slot(first, column.spec_key()) == SlotView::Filled(ColumnValueView::Number(number)),
        spec_slot(second, column.spec_key()) == SlotView::Filled(
            ColumnValueView::Text(number.text),
        ),
    ensures
        spec_row_record(first) == spec_row_record(second),
{
    lemma_rows_agree(first, second, column);
}

/// Two rows that differ in one optional column only, where one holds the
/// empty string and the other lacks the column, have the same record.
pub proof fn lemma_row_empty_string_or_missing(first: JsonView, second: JsonView, column: Column)
    requires
        !column.spec_is_mandatory(),
        rows_agree_except(first, second, column),
        spec_slot(first, column.spec_key()) == SlotView::Filled(
            ColumnValueView::Text(Seq::empty()),
        ),
        spec_slot(second, column.spec_key()) is Missing,
    ensures
        spec_row_record(first) == spec_row_record(second),
{
    lemma_rows_agree(first, second, column);
}

/// A date of the account's metadata that is given as a string is never a
/// fault: it is the date at the start of the string, and absent where none
/// can be read there.
pub proof fn lemma_optional_date_of_text(object: JsonView, key: Seq<char>, text: Seq<char>)
    requires
        object.get(key) == Some(JsonView::Text(text)),
    ensures
        spec_optional_date_field(object, key) == Some(spec_parse_date(text)),
        spec_parse_date(text) is None ==> spec_optional_date_field(object, key) == Some(
            None::<Date>,
        ),
{
}

/// Whether the metadata can be read does not depend on what its dates hold,
/// as long as each of them is missing, null or a string; and what is read
/// for the other members does not depend on it either.
pub proof fn lemma_dates_never_fail_account_info(first: JsonView, second: JsonView)
    requires
        forall|key: Seq<char>|
            key != "dateStart"@ && key != "dateEnd"@ ==> #[trigger] first.get(key) == second.get(
                key,
            ),
        spec_optional_date_field(first, "dateStart"@) is Some,
        spec_optional_date_field(first, "dateEnd"@) is Some,
        spec_optional_date_field(second, "dateStart"@) is Some,
        spec_optional_date_field(second, "dateEnd"@) is Some,
    ensures
        spec_account_info(first) is Some <==> spec_account_info(second) is Some,
        spec_account_info(first) matches Some(a) ==> spec_account_info(second) == Some(
            AccountInfoView {
                date_start: spec_optional_date_field(second, "dateStart"@).unwrap(),
                date_end: spec_optional_date_field(second, "dateEnd"@).unwrap(),
                ..a
            },
        ),
{
    reveal_strlit("dateStart");
    reveal_strlit("dateEnd");
    reveal_strlit("accountId");
    reveal_strlit("bankId");
    reveal_strlit("currency");
    reveal_strlit("iban");
    reveal_strlit("bic");
    reveal_strlit("openingBalance");
    reveal_strlit("closingBalance");
    reveal_strlit("yearList");
    reveal_strlit("idList");
    reveal_strlit("idFrom");
    reveal_strlit("idTo");
    reveal_strlit("idLastDownload");
    lemma_key_differs("accountId"@);
    lemma_key_differs("bankId"@);
    lemma_key_differs("currency"@);
    lemma_key_differs("iban"@);
    lemma_key_differs("bic"@);
    lemma_key_differs("openingBalance"@);
    lemma_key_differs("closingBalance"@);
    lemma_key_differs("yearList"@);
    lemma_key_differs("idList"@);
    lemma_key_differs("idFrom"@);
    lemma_key_differs("idTo"@);
    lemma_key_differs("idLastDownload"@);
}

/// A text that differs from both in its length or in its first character is
/// neither `dateStart` nor `dateEnd`.
proof fn lemma_key_differs(key: Seq<char>)
    requires
        key.len() == 0 || key[0] != 'd',
    ensures
        key != "dateStart"@,
        key != "dateEnd"@,
{
    reveal_strlit("dateStart");
    reveal_strlit("dateEnd");
    if key == "dateStart"@ {
        assert(key[0] == 'd');
    }
    if key == "dateEnd"@ {
        assert(key[0] == 'd');
    }
}

/// Rows that agree except under one column hold the same under each of the
/// other columns.
proof fn lemma_rows_agree(first: JsonView, second: JsonView, column: Column)
    requires
        rows_agree_except(first, second, column),
    ensures
        column != Column::TransactionId ==> spec_slot(first, Column::TransactionId.spec_key())
            == spec_slot(second, Column::TransactionId.spec_key()),
        column != Column::Date ==> spec_slot(first, Column::Date.spec_key()) == spec_slot(
            second,
            Column::Date.spec_key(),
        ),
        column != Column::Amount ==> spec_slot(first, Column::Amount.spec_key()) == spec_slot(
            second,
            Column::Amount.spec_key(),
        ),
        column != Column::Currency ==> spec_slot(first, Column::Currency.spec_key()) == spec_slot(
            second,
            Column::Currency.spec_key(),
        ),
        column != Column::AccountId ==> spec_slot(first, Column::AccountId.spec_key())
            == spec_slot(second, Column::AccountId.spec_key()),
        column != Column::AccountName ==> spec_slot(first, Column::AccountName.spec_key())
            == spec_slot(second, Column::AccountName.spec_key()),
        column != Column::BankId ==> spec_slot(first, Column::BankId.spec_key()) == spec_slot(
            second,
            Column::BankId.spec_key(),
        ),
        column != Column::BankName ==> spec_slot(first, Column::BankName.spec_key()) == spec_slot(
            second,
            Column::BankName.spec_key(),
        ),
        column != Column::Ks ==> spec_slot(first, Column::Ks.spec_key()) == spec_slot(
            second,
            Column::Ks.spec_key(),
        ),
        column != Column::Vs ==> spec_slot(first, Column::Vs.spec_key()) == spec_slot(
            second,
            Column::Vs.spec_key(),
        ),
        column != Column::Ss ==> spec_slot(first, Column::Ss.spec_key()) == spec_slot(
            second,
            Column::Ss.spec_key(),
        ),
        column != Column::UserIdentification ==> spec_slot(
            first,
            Column::UserIdentification.spec_key(),
        ) == spec_slot(second, Column::UserIdentification.spec_key()),
        column != Column::RemittanceInfo ==> spec_slot(first, Column::RemittanceInfo.spec_key())
            == spec_slot(second, Column::RemittanceInfo.spec_key()),
        column != Column::TransactionType ==> spec_slot(first, Column::TransactionType.spec_key())
            == spec_slot(second, Column::TransactionType.spec_key()),
        column != Column::Executor ==> spec_slot(first, Column::Executor.spec_key()) == spec_slot(
            second,
            Column::Executor.spec_key(),
        ),
        column != Column::Specification ==> spec_slot(first, Column::Specification.spec_key())
            == spec_slot(second, Column::Specification.spec_key()),
        column != Column::Comment ==> spec_slot(first, Column::Comment.spec_key()) == spec_slot(
            second,
            Column::Comment.spec_key(),
        ),
        column != Column::Bic ==> spec_slot(first, Column::Bic.spec_key()) == spec_slot(
            second,
            Column::Bic.spec_key(),
        ),
        column != Column::OrderId ==> spec_slot(first, Column::OrderId.spec_key()) == spec_slot(
            second,
            Column::OrderId.spec_key(),
        ),
        column != Column::PayerReference ==> spec_slot(first, Column::PayerReference.spec_key())
            == spec_slot(second, Column::PayerReference.spec_key()),
{
}

} // verus!
