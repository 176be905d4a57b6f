//! Status reports.
//!
//! Every outcome the tool shows the user is a report: a severity (which
//! decides the colour of the line), a title, and a message body, rendered as
//! `Title: message`.  Successes are informational, a declined overwrite is a
//! warning, and a failed or impossible operation is an error.

use vstd::prelude::*;
use vstd::string::StringExecFns;

verus! {

/// How serious a report is; the caller colours the line accordingly.
#[derive(Clone, Copy, Debug, PartialEq, Eq, Structural)]
pub enum Severity {
    Info,
    Warning,
    Error,
}

/// The mathematical value of a report.
#[verifier::ext_equal]
pub struct ReportModel {
    pub severity: Severity,
    pub title: Seq<char>,
    pub body: Seq<char>,
}

/// One status line for the user.
#[derive(Debug)]
pub struct Report {
    pub severity: Severity,
    pub title: String,
    pub body: String,
}

impl View for Report {
    type V = ReportModel;

    open spec fn view(&self) -> ReportModel {
        ReportModel { severity: self.severity, title: self.title@, body: self.body@ }
    }
}

/// The rendered form of a report.
pub open spec fn rendered(r: ReportModel) -> Seq<char> {
    r.title + ": "@ + r.body
}

impl Report {
    /// Renders the report as the `Title: message` line the tool prints.
    pub fn line(&self) -> (r: String)
        ensures
            r@ == rendered(self@),
    {
        let mut s = self.title.clone();
        s.append(": ");
        s.append(self.body.as_str());
        s
    }
}

/// The report for a filesystem operation that failed: the fixed prefix of
/// the operation that was attempted, followed by the underlying error text.
pub fn failure_report(prefix: &str, detail: &str) -> (r: Report)
    ensures
        r@.severity == Severity::Error,
        r@.title == "Error"@,
        r@.body == prefix@ + detail@,
{
    let mut body = prefix.to_owned();
    body.append(detail);
    Report { severity: Severity::Error, title: String::from_str("Error"), body }
}

} // verus!
