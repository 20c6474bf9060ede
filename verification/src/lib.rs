//! Typed, I/O-free client logic for the Fio banka REST API: request
//! construction, response classification, and decoding of the bank's
//! column-indexed JSON statements into typed records.

pub mod amount;
pub mod client;
pub mod column;
pub mod date;
pub mod error;
pub mod formats;
pub mod json;
pub mod laws;
pub mod models;
pub mod statement;
pub mod text;
pub mod transaction;

pub use client::Client;
pub use error::{ApiError, FioError};
pub use formats::{AccountStatementFmt, TransactionReportFmt};
pub use models::AccountInfo;
pub use statement::{LastStatementInfo, StatementData};
pub use transaction::Transaction;
