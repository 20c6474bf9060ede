//! Output formats that the bank offers, and their names in request paths.

use vstd::prelude::*;

verus! {

/// Format of a transaction report.
#[derive(Debug, Clone, Copy, PartialEq, Eq, Structural)]
pub enum TransactionReportFmt {
    Csv,
    Gpc,
    Html,
    Json,
    Ofx,
    Xml,
}

/// Format of an account statement.
#[derive(Debug, Clone, Copy, PartialEq, Eq, Structural)]
pub enum AccountStatementFmt {
    Csv,
    Gpc,
    Html,
    Json,
    Ofx,
    Xml,
    Pdf,
    Mt940,
    CbaXml,
    SbaXml,
}

impl TransactionReportFmt {
    /// The file extension that names this format in a request path.
    pub open spec fn spec_name(self) -> Seq<char> {
        match self {
            TransactionReportFmt::Csv => "csv"@,
            TransactionReportFmt::Gpc => "gpc"@,
            TransactionReportFmt::Html => "html"@,
            TransactionReportFmt::Json => "json"@,
            TransactionReportFmt::Ofx => "ofx"@,
            TransactionReportFmt::Xml => "xml"@,
        }
    }

    /// The file extension that names this format in a request path.
    pub fn name(&self) -> (r: &'static str)
        ensures
            r@ == self.spec_name(),
    {
        match self {
            TransactionReportFmt::Csv => "csv",
            TransactionReportFmt::Gpc => "gpc",
            TransactionReportFmt::Html => "html",
            TransactionReportFmt::Json => "json",
            TransactionReportFmt::Ofx => "ofx",
            TransactionReportFmt::Xml => "xml",
        }
    }
}

impl AccountStatementFmt {
    /// The file extension that names this format in a request path.
    pub open spec fn spec_name(self) -> Seq<char> {
        match self {
            AccountStatementFmt::Csv => "csv"@,
            AccountStatementFmt::Gpc => "gpc"@,
            AccountStatementFmt::Html => "html"@,
            AccountStatementFmt::Json => "json"@,
            AccountStatementFmt::Ofx => "ofx"@,
            AccountStatementFmt::Xml => "xml"@,
            AccountStatementFmt::Pdf => "pdf"@,
            AccountStatementFmt::Mt940 => "mt940"@,
            AccountStatementFmt::CbaXml => "cba_xml"@,
            AccountStatementFmt::SbaXml => "sba_xml"@,
        }
    }

    /// The file extension that names this format in a request path.
    pub fn name(&self) -> (r: &'static str)
        ensures
            r@ == self.spec_name(),
    {
        match self {
            AccountStatementFmt::Csv => "csv",
            AccountStatementFmt::Gpc => "gpc",
            AccountStatementFmt::Html => "html",
            AccountStatementFmt::Json => "json",
            AccountStatementFmt::Ofx => "ofx",
            AccountStatementFmt::Xml => "xml",
            AccountStatementFmt::Pdf => "pdf",
            AccountStatementFmt::Mt940 => "mt940",
            AccountStatementFmt::CbaXml => "cba_xml",
            AccountStatementFmt::SbaXml => "sba_xml",
        }
    }

    /// Whether a statement in this format is binary data rather than text.
    pub open spec fn spec_is_binary(self) -> bool {
        self == AccountStatementFmt::Pdf
    }

    /// Whether a statement in this format is binary data rather than text.
    pub fn is_binary(&self) -> (r: bool)
        ensures
            r == self.spec_is_binary(),
    {
        match self {
            AccountStatementFmt::Pdf => true,
            _ => false,
        }
    }
}

} // verus!
