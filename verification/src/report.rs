//! What is told about a launch once it is over.

use vstd::prelude::*;
use crate::error::LaunchError;
use crate::error::LaunchErrorView;

verus! {

/// Logged when the launch succeeded.
pub const STARTED_NOTE: &'static str = "Server started successfully";

/// What to tell about a finished launch: a line for the process log and,
/// after a failure, a script that shows a blocking alert in the window.
#[derive(Debug)]
pub struct Report {
    pub log_line: String,
    pub alert: Option<String>,
}

/// A `Report` with its texts as sequences of characters.
pub struct ReportView {
    pub log_line: Seq<char>,
    pub alert: Option<Seq<char>>,
}

impl View for Report {
    type V = ReportView;

    open spec fn view(&self) -> ReportView {
        ReportView {
            log_line: self.log_line@,
            alert: match self.alert {
                Some(script) => Some(script@),
                None => None,
            },
        }
    }
}

/// The line logged for a launch that failed with `message`.
pub open spec fn failure_text(message: Seq<char>) -> Seq<char> {
    "Failed to start server: "@ + message
}

/// The script that alerts the user to a launch that failed with `message`.
pub open spec fn alert_text(message: Seq<char>) -> Seq<char> {
    "alert('Server startup failed: "@ + message + "')"@
}

/// The report on a launch that failed with `message`.
pub open spec fn failure_report(message: Seq<char>) -> ReportView {
    ReportView { log_line: failure_text(message), alert: Some(alert_text(message)) }
}

/// The report on a launch that ended with `outcome`: success is only
/// logged; a failure is logged and shown to the user.
pub open spec fn report_for(outcome: Result<(), LaunchErrorView>) -> ReportView {
    match outcome {
        Ok(_) => ReportView { log_line: STARTED_NOTE@, alert: None },
        Err(error) => failure_report(error.message()),
    }
}

/// The view of the outcome of a launch.
pub open spec fn outcome_view(outcome: Result<(), LaunchError>) -> Result<(), LaunchErrorView> {
    match outcome {
        Ok(_) => Ok(()),
        Err(error) => Err(error@),
    }
}

/// Builds the report on a launch that failed with `message`.
pub fn report_failure(message: &str) -> (r: Report)
    ensures
        r@ == failure_report(message@),
{
    Report {
        log_line: String::from_str("Failed to start server: ").concat(message),
        alert: Some(String::from_str("alert('Server startup failed: ").concat(message).concat("')")),
    }
}

/// Builds the report on a launch that ended with `outcome`.
pub fn report(outcome: &Result<(), LaunchError>) -> (r: Report)
    ensures
        r@ == report_for(outcome_view(*outcome)),
{
    match outcome {
        Ok(_) => Report { log_line: String::from_str(STARTED_NOTE), alert: None },
        Err(error) => {
            let message = error.message();
            report_failure(message.as_str())
        },
    }
}

} // verus!
