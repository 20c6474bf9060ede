//! What the bank answers about statements: the body of a statement, and the
//! year and number of the most recent one.

use crate::error::FioError;
use crate::text::{find, find_char, parse_i32, spec_parse_i32, spec_trim, trim};
use vstd::prelude::*;
use vstd::string::*;

verus! {

/// The body of an account statement as the bank sent it.
#[derive(Debug, Clone)]
pub enum StatementData {
    Text(String),
    Binary(Vec<u8>),
}

/// Year and number of the most recent account statement.
#[derive(Debug, Clone, Copy, PartialEq, Eq, Structural)]
pub struct LastStatementInfo {
    pub year: i32,
    pub statement_id: i32,
}

/// The year and the number in a response of the form `year,number`: the text
/// before the first comma and the text from there to the next comma or to
/// the end, each without the white space around it, each an integer.
pub open spec fn spec_parse_last_statement_info(body: Seq<char>) -> Option<LastStatementInfo> {
    let first = find_char(body, ',', 0);
    if first >= body.len() {
        None
    } else {
        let second = find_char(body, ',', first + 1);
        match (
            spec_parse_i32(spec_trim(body.subrange(0, first))),
            spec_parse_i32(spec_trim(body.subrange(first + 1, second))),
        ) {
            (Some(year), Some(statement_id)) => Some(LastStatementInfo { year, statement_id }),
            _ => None,
        }
    }
}

impl LastStatementInfo {
    /// Reads the response of the form `year,number`. Fails with
    /// `InvalidResponse` where one of the two is missing or is no integer of
    /// 32 bits.
    pub fn parse(body: &str) -> (r: Result<LastStatementInfo, FioError>)
        ensures
            match spec_parse_last_statement_info(body@) {
                Some(info) => r == Ok::<LastStatementInfo, FioError>(info),
                None => r is Err && r.unwrap_err() is InvalidResponse,
            },
    {
        let n = body.unicode_len();
        let first = find(body, ',', 0);
        if first >= n {
            return Err(FioError::InvalidResponse);
        }
        let second = find(body, ',', first + 1);
        let year = match parse_i32(trim(body.substring_char(0, first))) {
            Some(year) => year,
            None => return Err(FioError::InvalidResponse),
        };
        let statement_id = match parse_i32(trim(body.substring_char(first + 1, second))) {
            Some(id) => id,
            None => return Err(FioError::InvalidResponse),
        };
        Ok(LastStatementInfo { year, statement_id })
    }
}

/// What to do with the body of a statement.
#[derive(Debug, Clone)]
pub enum StatementOutput<D> {
    /// Print the text.
    Print(String),
    /// Write the bytes to the destination.
    Write { destination: D, bytes: Vec<u8> },
}

/// A binary statement was asked for without a place to write it to.
#[derive(Debug, Clone, Copy, PartialEq, Eq, Structural)]
pub struct MissingDestination;

impl StatementData {
    /// Decides what becomes of a statement: text is printed, binary data is
    /// written to the destination. Binary data without a destination is a
    /// fault of usage, found before anything is written.
    pub fn output<D>(self, destination: Option<D>) -> (r: Result<
        StatementOutput<D>,
        MissingDestination,
    >)
        ensures
            match (self, destination) {
                (StatementData::Text(text), _) => r == Ok::<
                    StatementOutput<D>,
                    MissingDestination,
                >(StatementOutput::Print(text)),
                (StatementData::Binary(bytes), Some(destination)) => r == Ok::<
                    StatementOutput<D>,
                    MissingDestination,
                >(StatementOutput::Write { destination, bytes }),
                (StatementData::Binary(_), None) => r is Err,
            },
    {
        match self {
            StatementData::Text(text) => Ok(StatementOutput::Print(text)),
            StatementData::Binary(bytes) => match destination {
                Some(destination) => Ok(StatementOutput::Write { destination, bytes }),
                None => Err(MissingDestination),
            },
        }
    }
}

} // verus!
