//! Reports of progress: what the server would tell the client about work
//! that takes long.

use crate::server::Etymora;
use vstd::prelude::*;
use vstd::string::StringExecFns;

verus! {

/// The method of every report of progress.
pub const PROGRESS_METHOD: &'static str = "$/progress";

/// The token by which the client tells one piece of work from another.
#[derive(Debug)]
pub enum NumberOrString {
    Number(i32),
    String(String),
}

/// A stage of a piece of work.
#[derive(Debug)]
pub enum WorkDoneProgress {
    /// The work begins, under a title.
    Begin { title: String },
    /// The work goes on.
    Report { message: Option<String> },
    /// The work is done.
    End { message: Option<String> },
}

/// A report of progress, ready to be sent.
#[derive(Debug)]
pub struct Notification {
    pub method: String,
    pub token: NumberOrString,
    pub value: WorkDoneProgress,
}

impl Etymora {
    /// The report that the work `token` goes on, with a message.
    pub fn progress(token: NumberOrString, message: String) -> (report: Notification)
        ensures
            report.method@ == PROGRESS_METHOD@,
            report.token == token,
            report.value == (WorkDoneProgress::Report { message: Some(message) }),
    {
        Notification {
            method: String::from_str(PROGRESS_METHOD),
            token,
            value: WorkDoneProgress::Report { message: Some(message) },
        }
    }

    /// The report that the work `token` begins, under the title `title`.
    pub fn progress_start(token: NumberOrString, title: String) -> (report: Notification)
        ensures
            report.method@ == PROGRESS_METHOD@,
            report.token == token,
            report.value == (WorkDoneProgress::Begin { title }),
    {
        Notification {
            method: String::from_str(PROGRESS_METHOD),
            token,
            value: WorkDoneProgress::Begin { title },
        }
    }

    /// The report that the work `token` is done, with a last message if
    /// there is one.
    pub fn progress_end(token: NumberOrString, message: Option<String>) -> (report: Notification)
        ensures
            report.method@ == PROGRESS_METHOD@,
            report.token == token,
            report.value == (WorkDoneProgress::End { message }),
    {
        Notification {
            method: String::from_str(PROGRESS_METHOD),
            token,
            value: WorkDoneProgress::End { message },
        }
    }
}

} // verus!
