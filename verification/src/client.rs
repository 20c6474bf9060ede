//! The client: the access token and the address of the service, the requests
//! of its operations, and the reading of what comes back. Nothing here
//! touches the network: an operation hands out the request to send.

use crate::date::Date;
use crate::error::{ApiError, FioError};
use crate::formats::{AccountStatementFmt, TransactionReportFmt};
use crate::models::{
    parse_account_info, parse_transactions, spec_decode_account_info, spec_decode_transactions,
    AccountInfo,
};
use crate::json::document_of_text;
use crate::text::{append_i64, int_text};
use crate::transaction::Transaction;
use vstd::prelude::*;
use vstd::string::*;

verus! {

/// The number of characters of an access token.
pub const TOKEN_LENGTH: usize = 64;

/// The address of the bank's service.
pub open spec fn spec_default_base_url() -> Seq<char> {
    "https://fioapi.fio.cz/v1/rest"@
}

/// What stands for the access token wherever a request is shown.
pub open spec fn spec_token_placeholder() -> Seq<char> {
    "<token>"@
}

/// The path that asks for the transactions of a period.
pub open spec fn spec_period_path(
    token: Seq<char>,
    date_from: Date,
    date_to: Date,
    fmt: TransactionReportFmt,
) -> Seq<char> {
    "/periods/"@ + token + "/"@ + date_from.spec_ymd_text() + "/"@ + date_to.spec_ymd_text()
        + "/transactions."@ + fmt.spec_name()
}

/// The path that asks for a statement by its year and number.
pub open spec fn spec_statement_path(
    token: Seq<char>,
    year: i32,
    statement_id: i64,
    fmt: AccountStatementFmt,
) -> Seq<char> {
    "/by-id/"@ + token + "/"@ + int_text(year as int) + "/"@ + int_text(statement_id as int)
        + "/transactions."@ + fmt.spec_name()
}

/// The path that asks for the transactions since the last download.
pub open spec fn spec_since_last_download_path(
    token: Seq<char>,
    fmt: TransactionReportFmt,
) -> Seq<char> {
    "/last/"@ + token + "/transactions."@ + fmt.spec_name()
}

/// The path that asks for the year and number of the last statement.
pub open spec fn spec_last_statement_path(token: Seq<char>) -> Seq<char> {
    "/lastStatement/"@ + token + "/statement"@
}

/// The path that marks a transaction as the last one downloaded.
pub open spec fn spec_set_last_id_path(token: Seq<char>, transaction_id: i64) -> Seq<char> {
    "/set-last-id/"@ + token + "/"@ + int_text(transaction_id as int) + "/"@
}

/// The path that marks a day as that of the last download that failed.
pub open spec fn spec_set_last_date_path(token: Seq<char>, download_date: Date) -> Seq<char> {
    "/set-last-date/"@ + token + "/"@ + download_date.spec_ymd_text() + "/"@
}

/// How the response to a request is to be read.
#[derive(Debug, Clone, Copy, PartialEq, Eq, Structural)]
pub enum ResponseBody {
    /// The body is text.
    Text,
    /// The body is binary data.
    Binary,
    /// The body is of no interest.
    Ignored,
}

/// A request to send: one GET of `url`. `redacted_url` is the same address
/// with a placeholder where the access token stands; it is the one to show
/// in diagnostics.
#[derive(Debug, Clone)]
pub struct Request {
    pub url: String,
    pub redacted_url: String,
    pub body: ResponseBody,
}

/// A request as values of the mathematical model.
pub struct RequestView {
    pub url: Seq<char>,
    pub redacted_url: Seq<char>,
    pub body: ResponseBody,
}

impl View for Request {
    type V = RequestView;

    open spec fn view(&self) -> RequestView {
        RequestView { url: self.url@, redacted_url: self.redacted_url@, body: self.body }
    }
}

/// The error that a status code stands for; nothing for a success (200 to
/// 299).
pub open spec fn spec_status_error(status: u16) -> Option<ApiError> {
    if 200 <= status < 300 {
        None
    } else if status == 404 {
        Some(ApiError::InvalidRequest)
    } else if status == 409 {
        Some(ApiError::TimeLimit)
    } else if status == 413 {
        Some(ApiError::TooManyItems)
    } else if status == 422 {
        Some(ApiError::Authorization)
    } else if status == 500 {
        Some(ApiError::InvalidToken)
    } else {
        Some(ApiError::UnexpectedStatus(status))
    }
}

/// A client of the bank's service.
#[derive(Debug, Clone)]
pub struct Client {
    token: String,
    base_url: String,
}

/// A client as values of the mathematical model.
pub struct ClientView {
    pub token: Seq<char>,
    pub base_url: Seq<char>,
}

impl View for Client {
    type V = ClientView;

    closed spec fn view(&self) -> ClientView {
        ClientView { token: self.token@, base_url: self.base_url@ }
    }
}

impl ClientView {
    /// The request for a path that is given twice: with the token, and with
    /// the placeholder in its stead.
    pub open spec fn request(self, path: Seq<char>, shown: Seq<char>, body: ResponseBody) -> RequestView {
        RequestView { url: self.base_url + path, redacted_url: self.base_url + shown, body }
    }
}

impl Client {
    /// A client for the bank's own address. The token must have exactly 64
    /// characters; otherwise the error gives that number and the number of
    /// characters found.
    pub fn new(token: String) -> (r: Result<Client, FioError>)
        ensures
            token@.len() == TOKEN_LENGTH ==> r is Ok && r.unwrap()@ == (ClientView {
                token: token@,
                base_url: spec_default_base_url(),
            }),
            token@.len() != TOKEN_LENGTH ==> r is Err && r.unwrap_err() == (
            FioError::InvalidTokenLength { expected: TOKEN_LENGTH, actual: token@.len() as usize }),
    {
        let actual = token.as_str().unicode_len();
        if actual != TOKEN_LENGTH {
            return Err(FioError::InvalidTokenLength { expected: TOKEN_LENGTH, actual });
        }
        Ok(Client { token, base_url: String::from_str("https://fioapi.fio.cz/v1/rest") })
    }

    /// The same client for another address of the service.
    pub fn with_base_url(self, base_url: String) -> (r: Client)
        ensures
            r@ == (ClientView { token: self@.token, base_url: base_url@ }),
    {
        Client { token: self.token, base_url }
    }

    /// The address of the service.
    pub fn base_url(&self) -> (r: &str)
        ensures
            r@ == self@.base_url,
    {
        self.base_url.as_str()
    }

    fn request(&self, path: String, shown: String, body: ResponseBody) -> (r: Request)
        ensures
            r@ == self@.request(path@, shown@, body),
    {
        let mut url = self.base_url.clone();
        url.append(path.as_str());
        let mut redacted_url = self.base_url.clone();
        redacted_url.append(shown.as_str());
        Request { url, redacted_url, body }
    }

    /// The request for the transactions of a period, both days included, in a
    /// format. Fails with `InvalidDateRange`, before anything is sent, where
    /// the period starts after it ends.
    pub fn fetch_transaction_report_for_period(
        &self,
        date_from: Date,
        date_to: Date,
        fmt: TransactionReportFmt,
    ) -> (r: Result<Request, FioError>)
        requires
            date_from.is_valid(),
            date_to.is_valid(),
        ensures
            date_from.spec_le(date_to) ==> r is Ok && r.unwrap()@ == self@.request(
                spec_period_path(self@.token, date_from, date_to, fmt),
                spec_period_path(spec_token_placeholder(), date_from, date_to, fmt),
                ResponseBody::Text,
            ),
            !date_from.spec_le(date_to) ==> r is Err && r.unwrap_err() == (
            FioError::InvalidDateRange { start: date_from, end: date_to }),
    {
        if !date_from.le(&date_to) {
            return Err(FioError::InvalidDateRange { start: date_from, end: date_to });
        }
        let path = period_path(self.token.as_str(), date_from, date_to, fmt);
        let shown = period_path("<token>", date_from, date_to, fmt);
        Ok(self.request(path, shown, ResponseBody::Text))
    }

    /// The request for the statement of a year and a number, in a format.
    /// The body is binary for the PDF format and text for every other. Fails
    /// with `InvalidParameter`, before anything is sent, where the number is
    /// negative.
    pub fn fetch_account_statement(
        &self,
        year: i32,
        statement_id: i64,
        fmt: AccountStatementFmt,
    ) -> (r: Result<Request, FioError>)
        ensures
            statement_id >= 0 ==> r is Ok && r.unwrap()@ == self@.request(
                spec_statement_path(self@.token, year, statement_id, fmt),
                spec_statement_path(spec_token_placeholder(), year, statement_id, fmt),
                if fmt.spec_is_binary() {
                    ResponseBody::Binary
                } else {
                    ResponseBody::Text
                },
            ),
            statement_id < 0 ==> (r matches Err(FioError::InvalidParameter(message)) && message@
                == "statement_id must be a positive integer"@),
    {
        if statement_id < 0 {
            return Err(FioError::InvalidParameter("statement_id must be a positive integer"));
        }
        let path = statement_path(self.token.as_str(), year, statement_id, fmt);
        let shown = statement_path("<token>", year, statement_id, fmt);
        let body = if fmt.is_binary() {
            ResponseBody::Binary
        } else {
            ResponseBody::Text
        };
        Ok(self.request(path, shown, body))
    }

    /// The request for the transactions since the last download, in a
    /// format.
    pub fn fetch_transaction_report_since_last_download(&self, fmt: TransactionReportFmt) -> (r:
        Request)
        ensures
            r@ == self@.request(
                spec_since_last_download_path(self@.token, fmt),
                spec_since_last_download_path(spec_token_placeholder(), fmt),
                ResponseBody::Text,
            ),
    {
        let path = since_last_download_path(self.token.as_str(), fmt);
        let shown = since_last_download_path("<token>", fmt);
        self.request(path, shown, ResponseBody::Text)
    }

    /// The request for the year and number of the last statement. The body
    /// of the response is read by `LastStatementInfo::parse`.
    pub fn fetch_last_account_statement_info(&self) -> (r: Request)
        ensures
            r@ == self@.request(
                spec_last_statement_path(self@.token),
                spec_last_statement_path(spec_token_placeholder()),
                ResponseBody::Text,
            ),
    {
        let path = last_statement_path(self.token.as_str());
        let shown = last_statement_path("<token>");
        self.request(path, shown, ResponseBody::Text)
    }

    /// The request that marks a transaction as the last one downloaded.
    /// Fails with `InvalidParameter`, before anything is sent, where the
    /// identifier is negative.
    pub fn set_last_downloaded_transaction_id(&self, transaction_id: i64) -> (r: Result<
        Request,
        FioError,
    >)
        ensures
            transaction_id >= 0 ==> r is Ok && r.unwrap()@ == self@.request(
                spec_set_last_id_path(self@.token, transaction_id),
                spec_set_last_id_path(spec_token_placeholder(), transaction_id),
                ResponseBody::Ignored,
            ),
            transaction_id < 0 ==> (r matches Err(FioError::InvalidParameter(message)) && message@
                == "transaction_id must be a positive integer"@),
    {
        if transaction_id < 0 {
            return Err(FioError::InvalidParameter("transaction_id must be a positive integer"));
        }
        let path = set_last_id_path(self.token.as_str(), transaction_id);
        let shown = set_last_id_path("<token>", transaction_id);
        Ok(self.request(path, shown, ResponseBody::Ignored))
    }

    /// The request that marks a day as that of the last download that
    /// failed.
    pub fn set_last_unsuccessful_download_date(&self, download_date: Date) -> (r: Request)
        requires
            download_date.is_valid(),
        ensures
            r@ == self@.request(
                spec_set_last_date_path(self@.token, download_date),
                spec_set_last_date_path(spec_token_placeholder(), download_date),
                ResponseBody::Ignored,
            ),
    {
        let path = set_last_date_path(self.token.as_str(), download_date);
        let shown = set_last_date_path("<token>", download_date);
        self.request(path, shown, ResponseBody::Ignored)
    }

    /// Reads the status code of a response: a success passes, anything else
    /// is the error that the bank means by it.
    pub fn handle_status(&self, status: u16) -> (r: Result<(), FioError>)
        ensures
            match spec_status_error(status) {
                None => r is Ok,
                Some(error) => r is Err && r.unwrap_err() == FioError::Api(error),
            },
    {
        if 200 <= status && status < 300 {
            return Ok(());
        }
        let error = if status == 404 {
            ApiError::InvalidRequest
        } else if status == 409 {
            ApiError::TimeLimit
        } else if status == 413 {
            ApiError::TooManyItems
        } else if status == 422 {
            ApiError::Authorization
        } else if status == 500 {
            ApiError::InvalidToken
        } else {
            ApiError::UnexpectedStatus(status)
        };
        Err(FioError::Api(error))
    }

    /// Parses a statement document and decodes the account's metadata.
    pub fn parse_account_info(&self, data: &str) -> (r: Result<AccountInfo, FioError>)
        ensures
            match document_of_text(data@) {
                Some(document) => match spec_decode_account_info(document) {
                    Some(account) => r is Ok && r.unwrap()@ == account,
                    None => r is Err && r.unwrap_err() is InvalidResponse,
                },
                None => r is Err && r.unwrap_err() is InvalidResponse,
            },
            r matches Ok(account) ==> account.is_valid(),
    {
        parse_account_info(data)
    }

    /// Parses a statement document and decodes its transactions.
    pub fn parse_transactions(&self, data: &str) -> (r: Result<Vec<Transaction>, FioError>)
        ensures
            match document_of_text(data@) {
                Some(document) => match spec_decode_transactions(document) {
                    Some(records) => r is Ok && r.unwrap().deep_view() == records,
                    None => r is Err && r.unwrap_err() is InvalidResponse,
                },
                None => r is Err && r.unwrap_err() is InvalidResponse,
            },
            r matches Ok(records) ==> forall|i: int|
                0 <= i < records@.len() ==> (#[trigger] records@[i]).is_valid(),
    {
        parse_transactions(data)
    }
}

fn period_path(token: &str, date_from: Date, date_to: Date, fmt: TransactionReportFmt) -> (r:
    String)
    requires
        date_from.is_valid(),
        date_to.is_valid(),
    ensures
        r@ == spec_period_path(token@, date_from, date_to, fmt),
{
    let mut path = String::from_str("/periods/");
    path.append(token);
    path.append("/");
    path.append(date_from.to_ymd_string().as_str());
    path.append("/");
    path.append(date_to.to_ymd_string().as_str());
    path.append("/transactions.");
    path.append(fmt.name());
    path
}

fn statement_path(token: &str, year: i32, statement_id: i64, fmt: AccountStatementFmt) -> (r:
    String)
    ensures
        r@ == spec_statement_path(token@, year, statement_id, fmt),
{
    let mut path = String::from_str("/by-id/");
    path.append(token);
    path.append("/");
    append_i64(&mut path, year as i64);
    path.append("/");
    append_i64(&mut path, statement_id);
    path.append("/transactions.");
    path.append(fmt.name());
    path
}

fn since_last_download_path(token: &str, fmt: TransactionReportFmt) -> (r: String)
    ensures
        r@ == spec_since_last_download_path(token@, fmt),
{
    let mut path = String::from_str("/last/");
    path.append(token);
    path.append("/transactions.");
    path.append(fmt.name());
    path
}

fn last_statement_path(token: &str) -> (r: String)
    ensures
        r@ == spec_last_statement_path(token@),
{
    let mut path = String::from_str("/lastStatement/");
    path.append(token);
    path.append("/statement");
    path
}

fn set_last_id_path(token: &str, transaction_id: i64) -> (r: String)
    ensures
        r@ == spec_set_last_id_path(token@, transaction_id),
{
    let mut path = String::from_str("/set-last-id/");
    path.append(token);
    path.append("/");
    append_i64(&mut path, transaction_id);
    path.append("/");
    path
}

fn set_last_date_path(token: &str, download_date: Date) -> (r: String)
    requires
        download_date.is_valid(),
    ensures
        r@ == spec_set_last_date_path(token@, download_date),
{
    let mut path = String::from_str("/set-last-date/");
    path.append(token);
    path.append("/");
    path.append(download_date.to_ymd_string().as_str());
    path.append("/");
    path
}

} // verus!
