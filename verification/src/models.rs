//! The account statement document: account metadata and the list of
//! transaction rows, decoded from JSON.

use crate::amount::{parse_amount, spec_parse_amount, Amount};
use crate::date::{parse_date, spec_parse_date, Date};
use crate::error::FioError;
use crate::json::{document_of_text, lemma_array_view, parse_json, Json, JsonView};
use crate::transaction::{
    spec_raw_transaction, spec_transaction, RawTransaction, RawTransactionView, Transaction,
    TransactionView,
};
use vstd::prelude::*;

verus! {

/// Metadata of the account and of the statement.
#[derive(Debug, Clone)]
pub struct AccountInfo {
    pub account_id: Option<String>,
    pub bank_id: Option<String>,
    pub currency: String,
    pub iban: Option<String>,
    pub bic: Option<String>,
    pub opening_balance: Option<Amount>,
    pub closing_balance: Option<Amount>,
    pub date_start: Option<Date>,
    pub date_end: Option<Date>,
    pub year_list: Option<i32>,
    pub id_list: Option<i32>,
    pub id_from: Option<i64>,
    pub id_to: Option<i64>,
    pub id_last_download: Option<i64>,
}

/// The metadata as values of the mathematical model.
pub struct AccountInfoView {
    pub account_id: Option<Seq<char>>,
    pub bank_id: Option<Seq<char>>,
    pub currency: Seq<char>,
    pub iban: Option<Seq<char>>,
    pub bic: Option<Seq<char>>,
    pub opening_balance: Option<Amount>,
    pub closing_balance: Option<Amount>,
    pub date_start: Option<Date>,
    pub date_end: Option<Date>,
    pub year_list: Option<i32>,
    pub id_list: Option<i32>,
    pub id_from: Option<i64>,
    pub id_to: Option<i64>,
    pub id_last_download: Option<i64>,
}

impl View for AccountInfo {
    type V = AccountInfoView;

    open spec fn view(&self) -> AccountInfoView {
        AccountInfoView {
            account_id: self.account_id.deep_view(),
            bank_id: self.bank_id.deep_view(),
            currency: self.currency@,
            iban: self.iban.deep_view(),
            bic: self.bic.deep_view(),
            opening_balance: self.opening_balance,
            closing_balance: self.closing_balance,
            date_start: self.date_start,
            date_end: self.date_end,
            year_list: self.year_list,
            id_list: self.id_list,
            id_from: self.id_from,
            id_to: self.id_to,
            id_last_download: self.id_last_download,
        }
    }
}

impl AccountInfo {
    /// Whether each date that is there is an existing day, and each balance
    /// one that a decimal can hold.
    pub open spec fn is_valid(&self) -> bool {
        &&& self.opening_balance matches Some(amount) ==> amount.is_valid()
        &&& self.closing_balance matches Some(amount) ==> amount.is_valid()
        &&& self.date_start matches Some(date) ==> date.is_valid()
        &&& self.date_end matches Some(date) ==> date.is_valid()
    }
}

impl DeepView for AccountInfo {
    type V = AccountInfoView;

    open spec fn deep_view(&self) -> AccountInfoView {
        self@
    }
}

/// A string member that may be missing or null. A member of another type is
/// a fault.
pub open spec fn spec_optional_text_field(object: JsonView, key: Seq<char>) -> Option<
    Option<Seq<char>>,
> {
    match object.get(key) {
        None => Some(None),
        Some(JsonView::Null) => Some(None),
        Some(JsonView::Text(s)) => Some(Some(s)),
        Some(_) => None,
    }
}

/// A string member that must be there.
pub open spec fn spec_required_text_field(object: JsonView, key: Seq<char>) -> Option<Seq<char>> {
    match object.get(key) {
        Some(JsonView::Text(s)) => Some(s),
        _ => None,
    }
}

/// An amount that may be missing or null: a numeric literal, given as a
/// string or as a number. Anything else is a fault.
pub open spec fn spec_optional_amount_field(object: JsonView, key: Seq<char>) -> Option<
    Option<Amount>,
> {
    match object.get(key) {
        None => Some(None),
        Some(JsonView::Null) => Some(None),
        Some(JsonView::Text(s)) => match spec_parse_amount(s) {
            Some(amount) => Some(Some(amount)),
            None => None,
        },
        Some(JsonView::Number(n)) => match spec_parse_amount(n.text) {
            Some(amount) => Some(Some(amount)),
            None => None,
        },
        Some(_) => None,
    }
}

/// A date that may be absent: the member is missing or null, or it is a
/// string from which no date can be read, the empty string among them. A
/// string that starts with a date gives that date. A member of another type
/// is a fault.
pub open spec fn spec_optional_date_field(object: JsonView, key: Seq<char>) -> Option<
    Option<Date>,
> {
    match object.get(key) {
        None => Some(None),
        Some(JsonView::Null) => Some(None),
        Some(JsonView::Text(s)) => if s.len() == 0 {
            Some(None)
        } else {
            Some(spec_parse_date(s))
        },
        Some(_) => None,
    }
}

/// An integer of 64 bits that may be missing or null. Anything else is a
/// fault.
pub open spec fn spec_optional_i64_field(object: JsonView, key: Seq<char>) -> Option<
    Option<i64>,
> {
    match object.get(key) {
        None => Some(None),
        Some(JsonView::Null) => Some(None),
        Some(JsonView::Number(n)) => match n.integer {
            Some(v) => Some(Some(v)),
            None => None,
        },
        Some(_) => None,
    }
}

/// An integer of 32 bits that may be missing or null. Anything else is a
/// fault.
pub open spec fn spec_optional_i32_field(object: JsonView, key: Seq<char>) -> Option<
    Option<i32>,
> {
    match spec_optional_i64_field(object, key) {
        None => None,
        Some(None) => Some(None),
        Some(Some(v)) => if i32::MIN <= v <= i32::MAX {
            Some(Some(v as i32))
        } else {
            None
        },
    }
}

/// The metadata held by the `info` object, if every member that is there has
/// its type and the currency is there.
pub open spec fn spec_account_info(info: JsonView) -> Option<AccountInfoView> {
    let account_id = spec_optional_text_field(info, "accountId"@);
    let bank_id = spec_optional_text_field(info, "bankId"@);
    let currency = spec_required_text_field(info, "currency"@);
    let iban = spec_optional_text_field(info, "iban"@);
    let bic = spec_optional_text_field(info, "bic"@);
    let opening_balance = spec_optional_amount_field(info, "openingBalance"@);
    let closing_balance = spec_optional_amount_field(info, "closingBalance"@);
    let date_start = spec_optional_date_field(info, "dateStart"@);
    let date_end = spec_optional_date_field(info, "dateEnd"@);
    let year_list = spec_optional_i32_field(info, "yearList"@);
    let id_list = spec_optional_i32_field(info, "idList"@);
    let id_from = spec_optional_i64_field(info, "idFrom"@);
    let id_to = spec_optional_i64_field(info, "idTo"@);
    let id_last_download = spec_optional_i64_field(info, "idLastDownload"@);
    if account_id is Some
        && bank_id is Some
        && currency is Some
        && iban is Some
        && bic is Some
        && opening_balance is Some
        && closing_balance is Some
        && date_start is Some
        && date_end is Some
        && year_list is Some
        && id_list is Some
        && id_from is Some
        && id_to is Some
        && id_last_download is Some {
        Some(
            AccountInfoView {
                account_id: account_id.unwrap(),
                bank_id: bank_id.unwrap(),
                currency: currency.unwrap(),
                iban: iban.unwrap(),
                bic: bic.unwrap(),
                opening_balance: opening_balance.unwrap(),
                closing_balance: closing_balance.unwrap(),
                date_start: date_start.unwrap(),
                date_end: date_end.unwrap(),
                year_list: year_list.unwrap(),
                id_list: id_list.unwrap(),
                id_from: id_from.unwrap(),
                id_to: id_to.unwrap(),
                id_last_download: id_last_download.unwrap(),
            },
        )
    } else {
        None
    }
}

/// Reads a string that may be missing or null. A member of another type
/// is a fault and gives the outer `None`.
pub fn optional_text_field(object: &Json, key: &str) -> (r: Option<Option<String>>)
    ensures
        r.deep_view() == spec_optional_text_field(object@, key@),
{
    match object.get(key) {
        None => Some(None),
        Some(Json::Null) => Some(None),
        Some(Json::Text(s)) => Some(Some(s.clone())),
        Some(_) => None,
    }
}

/// Reads a string that must be there.
pub fn required_text_field(object: &Json, key: &str) -> (r: Option<String>)
    ensures
        r.deep_view() == spec_required_text_field(object@, key@),
{
    match object.get(key) {
        Some(Json::Text(s)) => Some(s.clone()),
        _ => None,
    }
}

/// Reads an amount that may be missing or null: a numeric literal, given as
/// a string or as a number. Anything else is a fault and gives the outer
/// `None`.
pub fn optional_amount_field(object: &Json, key: &str) -> (r: Option<Option<Amount>>)
    ensures
        r == spec_optional_amount_field(object@, key@),
        r matches Some(Some(amount)) ==> amount.is_valid(),
{
    match object.get(key) {
        None => Some(None),
        Some(Json::Null) => Some(None),
        Some(Json::Text(s)) => match parse_amount(s.as_str()) {
            Some(amount) => Some(Some(amount)),
            None => None,
        },
        Some(Json::Number(n)) => match parse_amount(n.text.as_str()) {
            Some(amount) => Some(Some(amount)),
            None => None,
        },
        Some(_) => None,
    }
}

/// Reads a date that may be absent. A string from which no date can be read
/// gives no date and is no fault; only a member that is neither a string nor
/// null is one, and it gives the outer `None`.
pub fn optional_date_field(object: &Json, key: &str) -> (r: Option<Option<Date>>)
    ensures
        r == spec_optional_date_field(object@, key@),
        object@.get(key@) matches Some(JsonView::Text(s)) ==> r == Some(spec_parse_date(s)),
        r matches Some(Some(date)) ==> date.is_valid(),
{
    match object.get(key) {
        None => Some(None),
        Some(Json::Null) => Some(None),
        Some(Json::Text(s)) => if s.as_str().is_empty() {
            Some(None)
        } else {
            Some(parse_date(s.as_str()))
        },
        Some(_) => None,
    }
}

/// Reads an integer of 64 bits that may be missing or null. Anything else
/// is a fault and gives the outer `None`.
pub fn optional_i64_field(object: &Json, key: &str) -> (r: Option<Option<i64>>)
    ensures
        r == spec_optional_i64_field(object@, key@),
{
    match object.get(key) {
        None => Some(None),
        Some(Json::Null) => Some(None),
        Some(Json::Number(n)) => match n.integer {
            Some(v) => Some(Some(v)),
            None => None,
        },
        Some(_) => None,
    }
}

/// Reads an integer of 32 bits that may be missing or null. Anything else
/// is a fault and gives the outer `None`.
pub fn optional_i32_field(object: &Json, key: &str) -> (r: Option<Option<i32>>)
    ensures
        r == spec_optional_i32_field(object@, key@),
{
    match optional_i64_field(object, key) {
        None => None,
        Some(None) => Some(None),
        Some(Some(v)) => if -2147483648 <= v && v <= 2147483647 {
            Some(Some(v as i32))
        } else {
            None
        },
    }
}

impl AccountInfo {
    /// Reads the metadata from the `info` object. Fails with
    /// `InvalidResponse` where a member has the wrong type, a balance is no
    /// numeric literal, or the currency is missing. A date that cannot be
    /// read is absent and fails nothing.
    pub fn from_json(info: &Json) -> (r: Result<AccountInfo, FioError>)
        ensures
            match spec_account_info(info@) {
                Some(account) => r is Ok && r.unwrap()@ == account,
                None => r is Err && r.unwrap_err() is InvalidResponse,
            },
            r matches Ok(account) ==> account.is_valid(),
    {
        let account_id = match optional_text_field(info, "accountId") {
            Some(v) => v,
            None => return Err(FioError::InvalidResponse),
        };
        let bank_id = match optional_text_field(info, "bankId") {
            Some(v) => v,
            None => return Err(FioError::InvalidResponse),
        };
        let currency = match required_text_field(info, "currency") {
            Some(v) => v,
            None => return Err(FioError::InvalidResponse),
        };
        let iban = match optional_text_field(info, "iban") {
            Some(v) => v,
            None => return Err(FioError::InvalidResponse),
        };
        let bic = match optional_text_field(info, "bic") {
            Some(v) => v,
            None => return Err(FioError::InvalidResponse),
        };
        let opening_balance = match optional_amount_field(info, "openingBalance") {
            Some(v) => v,
            None => return Err(FioError::InvalidResponse),
        };
        let closing_balance = match optional_amount_field(info, "closingBalance") {
            Some(v) => v,
            None => return Err(FioError::InvalidResponse),
        };
        let date_start = match optional_date_field(info, "dateStart") {
            Some(v) => v,
            None => return Err(FioError::InvalidResponse),
        };
        let date_end = match optional_date_field(info, "dateEnd") {
            Some(v) => v,
            None => return Err(FioError::InvalidResponse),
        };
        let year_list = match optional_i32_field(info, "yearList") {
            Some(v) => v,
            None => return Err(FioError::InvalidResponse),
        };
        let id_list = match optional_i32_field(info, "idList") {
            Some(v) => v,
            None => return Err(FioError::InvalidResponse),
        };
        let id_from = match optional_i64_field(info, "idFrom") {
            Some(v) => v,
            None => return Err(FioError::InvalidResponse),
        };
        let id_to = match optional_i64_field(info, "idTo") {
            Some(v) => v,
            None => return Err(FioError::InvalidResponse),
        };
        let id_last_download = match optional_i64_field(info, "idLastDownload") {
            Some(v) => v,
            None => return Err(FioError::InvalidResponse),
        };
        Ok(
            AccountInfo {
                account_id,
                bank_id,
                currency,
                iban,
                bic,
                opening_balance,
                closing_balance,
                date_start,
                date_end,
                year_list,
                id_list,
                id_from,
                id_to,
                id_last_download,
            },
        )
    }
}

/// The list of transaction rows of a statement.
#[derive(Debug, Clone)]
pub struct TransactionList {
    pub transaction: Vec<RawTransaction>,
}

/// A statement: the account's metadata and the rows.
#[derive(Debug, Clone)]
pub struct AccountStatement {
    pub info: AccountInfo,
    pub transaction_list: TransactionList,
}

/// The document that the bank sends for a statement or a report.
#[derive(Debug, Clone)]
pub struct FioResponse {
    pub account_statement: AccountStatement,
}

/// The list of rows as values of the mathematical model.
pub struct TransactionListView {
    pub transaction: Seq<RawTransactionView>,
}

/// A statement as values of the mathematical model.
pub struct AccountStatementView {
    pub info: AccountInfoView,
    pub transaction_list: TransactionListView,
}

/// The document as values of the mathematical model.
pub struct FioResponseView {
    pub account_statement: AccountStatementView,
}

impl View for TransactionList {
    type V = TransactionListView;

    open spec fn view(&self) -> TransactionListView {
        TransactionListView { transaction: self.transaction.deep_view() }
    }
}

impl View for AccountStatement {
    type V = AccountStatementView;

    open spec fn view(&self) -> AccountStatementView {
        AccountStatementView { info: self.info@, transaction_list: self.transaction_list@ }
    }
}

impl View for FioResponse {
    type V = FioResponseView;

    open spec fn view(&self) -> FioResponseView {
        FioResponseView { account_statement: self.account_statement@ }
    }
}

impl AccountStatement {
    /// Whether the metadata is valid.
    pub open spec fn is_valid(&self) -> bool {
        self.info.is_valid()
    }
}

impl FioResponse {
    /// Whether the metadata is valid.
    pub open spec fn is_valid(&self) -> bool {
        self.account_statement.is_valid()
    }
}

/// The rows of an array, each as the bank sent it, in the array's order;
/// nothing where one of them is no row.
pub open spec fn spec_raw_rows(items: Seq<JsonView>) -> Option<Seq<RawTransactionView>> {
    if forall|i: int| 0 <= i < items.len() ==> (#[trigger] spec_raw_transaction(items[i])) is Some {
        Some(Seq::new(items.len(), |i: int| spec_raw_transaction(items[i]).unwrap()))
    } else {
        None
    }
}

/// The records of a list of rows, in the list's order; nothing where one of
/// the rows has no record.
pub open spec fn spec_transactions(rows: Seq<RawTransactionView>) -> Option<Seq<TransactionView>> {
    if forall|i: int| 0 <= i < rows.len() ==> (#[trigger] spec_transaction(rows[i])) is Some {
        Some(Seq::new(rows.len(), |i: int| spec_transaction(rows[i]).unwrap()))
    } else {
        None
    }
}

/// The rows held by the `transactionList` object: those of its array
/// `transaction`.
pub open spec fn spec_transaction_list(list: JsonView) -> Option<TransactionListView> {
    match list.get("transaction"@) {
        Some(JsonView::Array(items)) => match spec_raw_rows(items) {
            Some(rows) => Some(TransactionListView { transaction: rows }),
            None => None,
        },
        _ => None,
    }
}

/// The statement held by the `accountStatement` object: its `info` and its
/// `transactionList`.
pub open spec fn spec_account_statement(statement: JsonView) -> Option<AccountStatementView> {
    match (statement.get("info"@), statement.get("transactionList"@)) {
        (Some(info), Some(list)) => match (spec_account_info(info), spec_transaction_list(list)) {
            (Some(info), Some(transaction_list)) => Some(
                AccountStatementView { info, transaction_list },
            ),
            _ => None,
        },
        _ => None,
    }
}

/// The statement document held by a JSON value: that of its member
/// `accountStatement`.
pub open spec fn spec_response(document: JsonView) -> Option<FioResponseView> {
    match document.get("accountStatement"@) {
        Some(statement) => match spec_account_statement(statement) {
            Some(account_statement) => Some(FioResponseView { account_statement }),
            None => None,
        },
        None => None,
    }
}

/// The metadata of a statement document: that of `accountStatement.info`.
/// The rows are not looked at.
pub open spec fn spec_decode_account_info(document: JsonView) -> Option<AccountInfoView> {
    match document.get("accountStatement"@) {
        Some(statement) => match statement.get("info"@) {
            Some(info) => spec_account_info(info),
            None => None,
        },
        None => None,
    }
}

/// The records of a statement document: those of its rows, in their order;
/// nothing where the document is no statement or a row has no record.
pub open spec fn spec_decode_transactions(document: JsonView) -> Option<Seq<TransactionView>> {
    match spec_response(document) {
        Some(response) => spec_transactions(response.account_statement.transaction_list.transaction),
        None => None,
    }
}

impl TransactionList {
    /// Reads the rows from the `transactionList` object. Fails with
    /// `InvalidResponse` where the array `transaction` is missing or one of
    /// its entries is no row.
    pub fn from_json(list: &Json) -> (r: Result<TransactionList, FioError>)
        ensures
            match spec_transaction_list(list@) {
                Some(rows) => r is Ok && r.unwrap()@ == rows,
                None => r is Err && r.unwrap_err() is InvalidResponse,
            },
    {
        match list.get("transaction") {
            Some(Json::Array(items)) => {
                let ghost source = Json::Array(*items)@->Array_0;
                proof {
                    lemma_array_view(*items);
                }
                let mut rows: Vec<RawTransaction> = Vec::new();
                let mut i: usize = 0;
                while i < items.len()
                    invariant
                        i <= items.len(),
                        rows.len() == i,
                        list@.get("transaction"@) == Some(JsonView::Array(source)),
                        source.len() == items.len(),
                        forall|k: int| 0 <= k < items.len() ==> source[k] == (#[trigger] items@[k])@,
                        forall|k: int|
                            0 <= k < i ==> spec_raw_transaction(source[k]) == Some(
                                (#[trigger] rows@[k])@,
                            ),
                    decreases items.len() - i,
                {
                    match RawTransaction::from_json(&items[i]) {
                        Ok(raw) => {
                            rows.push(raw);
                        },
                        Err(_) => {
                            return Err(FioError::InvalidResponse);
                        },
                    }
                    i += 1;
                }
                let r = TransactionList { transaction: rows };
                proof {
                    assert forall|k: int| 0 <= k < source.len() implies (
                    #[trigger] spec_raw_transaction(source[k])) is Some by {
                        assert(spec_raw_transaction(source[k]) == Some(rows@[k]@));
                    }
                    assert(r@.transaction =~= spec_raw_rows(source).unwrap());
                }
                Ok(r)
            },
            _ => Err(FioError::InvalidResponse),
        }
    }
}

impl AccountStatement {
    /// Reads the statement from the `accountStatement` object.
    pub fn from_json(statement: &Json) -> (r: Result<AccountStatement, FioError>)
        ensures
            match spec_account_statement(statement@) {
                Some(decoded) => r is Ok && r.unwrap()@ == decoded,
                None => r is Err && r.unwrap_err() is InvalidResponse,
            },
            r matches Ok(decoded) ==> decoded.is_valid(),
    {
        let info = match statement.get("info") {
            Some(info) => info,
            None => return Err(FioError::InvalidResponse),
        };
        let list = match statement.get("transactionList") {
            Some(list) => list,
            None => return Err(FioError::InvalidResponse),
        };
        let info = match AccountInfo::from_json(info) {
            Ok(info) => info,
            Err(_) => return Err(FioError::InvalidResponse),
        };
        let transaction_list = match TransactionList::from_json(list) {
            Ok(list) => list,
            Err(_) => return Err(FioError::InvalidResponse),
        };
        Ok(AccountStatement { info, transaction_list })
    }
}

impl FioResponse {
    /// Reads the statement document. Fails with `InvalidResponse` where the
    /// value is not of the form
    /// `{ "accountStatement": { "info": .., "transactionList": { "transaction": [..] } } }`.
    pub fn from_json(document: &Json) -> (r: Result<FioResponse, FioError>)
        ensures
            match spec_response(document@) {
                Some(decoded) => r is Ok && r.unwrap()@ == decoded,
                None => r is Err && r.unwrap_err() is InvalidResponse,
            },
            r matches Ok(decoded) ==> decoded.is_valid(),
    {
        match document.get("accountStatement") {
            Some(statement) => match AccountStatement::from_json(statement) {
                Ok(account_statement) => Ok(FioResponse { account_statement }),
                Err(_) => Err(FioError::InvalidResponse),
            },
            None => Err(FioError::InvalidResponse),
        }
    }

    /// The account's metadata.
    pub fn account_info(&self) -> (r: &AccountInfo)
        ensures
            *r == self.account_statement.info,
    {
        &self.account_statement.info
    }

    /// The typed records of the rows, in the order of the rows. Fails with
    /// `InvalidResponse` at the first row that has no record; no part of the
    /// list is returned then.
    pub fn transactions(&self) -> (r: Result<Vec<Transaction>, FioError>)
        ensures
            match spec_transactions(self@.account_statement.transaction_list.transaction) {
                Some(records) => r is Ok && r.unwrap().deep_view() == records,
                None => r is Err && r.unwrap_err() is InvalidResponse,
            },
            r matches Ok(records) ==> records@.len()
                == self.account_statement.transaction_list.transaction@.len(),
            r matches Ok(records) ==> forall|i: int|
                0 <= i < records@.len() ==> (#[trigger] records@[i]).is_valid(),
    {
        let rows = &self.account_statement.transaction_list.transaction;
        let ghost source = self@.account_statement.transaction_list.transaction;
        let mut records: Vec<Transaction> = Vec::new();
        let mut i: usize = 0;
        while i < rows.len()
            invariant
                i <= rows.len(),
                records.len() == i,
                source.len() == rows.len(),
                source == rows.deep_view(),
                *rows == self.account_statement.transaction_list.transaction,
                forall|k: int|
                    0 <= k < i ==> spec_transaction(source[k]) == Some((#[trigger] records@[k])@),
                forall|k: int| 0 <= k < i ==> (#[trigger] records@[k]).is_valid(),
            decreases rows.len() - i,
        {
            match Transaction::try_from(&rows[i]) {
                Ok(record) => {
                    records.push(record);
                },
                Err(_) => {
                    assert(spec_transaction(source[i as int]) is None);
                    return Err(FioError::InvalidResponse);
                },
            }
            i += 1;
        }
        proof {
            assert forall|k: int| 0 <= k < source.len() implies (#[trigger] spec_transaction(
                source[k],
            )) is Some by {
                assert(spec_transaction(source[k]) == Some(records@[k]@));
            }
        }
        Ok(records)
    }
}

/// Decodes the account's metadata from a statement document. Only
/// `accountStatement.info` is read. Fails with `InvalidResponse` where it is
/// missing, a member of it has the wrong type, a balance is no numeric
/// literal, or the currency is missing. A date that cannot be read is absent
/// and fails nothing.
pub fn decode_account_info(document: &Json) -> (r: Result<AccountInfo, FioError>)
    ensures
        match spec_decode_account_info(document@) {
            Some(account) => r is Ok && r.unwrap()@ == account,
            None => r is Err && r.unwrap_err() is InvalidResponse,
        },
        r matches Ok(account) ==> account.is_valid(),
{
    match document.get("accountStatement") {
        Some(statement) => match statement.get("info") {
            Some(info) => AccountInfo::from_json(info),
            None => Err(FioError::InvalidResponse),
        },
        None => Err(FioError::InvalidResponse),
    }
}

/// Decodes the transactions of a statement document, in the order of its
/// rows. Fails with `InvalidResponse` where the document is no statement or a
/// row has no record; no part of the list is returned then.
pub fn decode_transactions(document: &Json) -> (r: Result<Vec<Transaction>, FioError>)
    ensures
        match spec_decode_transactions(document@) {
            Some(records) => r is Ok && r.unwrap().deep_view() == records,
            None => r is Err && r.unwrap_err() is InvalidResponse,
        },
        r matches Ok(records) ==> forall|i: int|
            0 <= i < records@.len() ==> (#[trigger] records@[i]).is_valid(),
{
    match FioResponse::from_json(document) {
        Ok(response) => response.transactions(),
        Err(_) => Err(FioError::InvalidResponse),
    }
}

/// Parses a statement document and decodes the account's metadata. Fails
/// with `InvalidResponse` where the text is no JSON, or as
/// [`decode_account_info`] does.
pub fn parse_account_info(data: &str) -> (r: Result<AccountInfo, FioError>)
    ensures
        match document_of_text(data@) {
            Some(document) => match spec_decode_account_info(document) {
                Some(account) => r is Ok && r.unwrap()@ == account,
                None => r is Err && r.unwrap_err() is InvalidResponse,
            },
            None => r is Err && r.unwrap_err() is InvalidResponse,
        },
        r matches Ok(account) ==> account.is_valid(),
{
    match parse_json(data) {
        Some(document) => decode_account_info(&document),
        None => Err(FioError::InvalidResponse),
    }
}

/// Parses a statement document and decodes its transactions. Fails with
/// `InvalidResponse` where the text is no JSON, or as
/// [`decode_transactions`] does.
pub fn parse_transactions(data: &str) -> (r: Result<Vec<Transaction>, FioError>)
    ensures
        match document_of_text(data@) {
            Some(document) => match spec_decode_transactions(document) {
                Some(records) => r is Ok && r.unwrap().deep_view() == records,
                None => r is Err && r.unwrap_err() is InvalidResponse,
            },
            None => r is Err && r.unwrap_err() is InvalidResponse,
        },
        r matches Ok(records) ==> forall|i: int|
            0 <= i < records@.len() ==> (#[trigger] records@[i]).is_valid(),
{
    match parse_json(data) {
        Some(document) => decode_transactions(&document),
        None => Err(FioError::InvalidResponse),
    }
}

} // verus!
