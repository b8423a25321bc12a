//! What the operator is shown of a response.

use vstd::prelude::*;
use vstd::string::*;
use crate::epicor::error::{error_text, ApiError};
use crate::epicor::request::CaseAction;
use crate::epicor::response::{CaseStatusResponse, GetLastCommentResponse, LastCommentSpec, StatusSpec};
use crate::text::{decimal, decimal_text, joined, signed_decimal, signed_decimal_text};

verus! {

/// One line of a status: what it is, and its value.
#[derive(Debug, Clone, PartialEq, Eq)]
pub struct StatusLine {
    pub label: String,
    pub value: String,
}

pub struct LineSpec {
    pub label: Seq<char>,
    pub value: Seq<char>,
}

impl View for StatusLine {
    type V = LineSpec;

    open spec fn view(&self) -> LineSpec {
        LineSpec { label: self.label@, value: self.value@ }
    }
}

/// The lines of a vector, each by its view.
pub open spec fn lines_view(lines: Seq<StatusLine>) -> Seq<LineSpec> {
    lines.map_values(|line: StatusLine| line@)
}

/// The status of a case as the operator reads it: the case number, then the
/// twenty fields of the status, each under its label.
pub open spec fn status_lines(case_num: u32, status: StatusSpec) -> Seq<LineSpec> {
    seq![
        LineSpec { label: "Case Number:"@, value: decimal(case_num as nat) },
        LineSpec { label: "Case Owner:"@, value: status.case_owner },
        LineSpec { label: "Case Contact:"@, value: status.case_contact },
        LineSpec { label: "Internal Contact:"@, value: status.internal_contact },
        LineSpec { label: "Case Description:"@, value: status.case_description },
        LineSpec { label: "Project:"@, value: status.project_id },
        LineSpec { label: "Part Num:"@, value: status.part_num },
        LineSpec { label: "Unit Price:"@, value: status.unit_price },
        LineSpec { label: "Quantity:"@, value: status.qty },
        LineSpec { label: "Phase:"@, value: status.wbs_phase_id },
        LineSpec { label: "Op:"@, value: signed_decimal(status.wbs_phase_op as int) },
        LineSpec { label: "Current Task:"@, value: status.current_task },
        LineSpec { label: "Assigned To:"@, value: status.current_task_assigned_to },
        LineSpec { label: "Case Developer:"@, value: status.developer },
        LineSpec { label: "Request Date:"@, value: status.requested_delivery },
        LineSpec { label: "Start Date:"@, value: status.start_date },
        LineSpec { label: "Expected Delivery Date:"@, value: status.expected_delivery_date },
        LineSpec { label: "Estimated Hours:"@, value: status.estimated_hours },
        LineSpec { label: "Hours Scheduled:"@, value: status.hours_scheduled },
        LineSpec { label: "Hours Applied:"@, value: status.hours_applied },
        LineSpec { label: "Billed Percent:"@, value: status.billed_percent },
    ]
}

fn line(label: &str, value: &String) -> (line: StatusLine)
    ensures
        line@ == (LineSpec { label: label@, value: value@ }),
{
    StatusLine { label: String::from_str(label), value: value.clone() }
}

/// Lays a status out in lines.
pub fn case_status_lines(case_num: u32, status: &CaseStatusResponse) -> (lines: Vec<StatusLine>)
    ensures
        lines_view(lines@) == status_lines(case_num, status@),
{
    let case_number = decimal_text(case_num as u64);
    let operation = signed_decimal_text(status.wbs_phase_op as i64);
    let mut lines: Vec<StatusLine> = Vec::new();
    lines.push(line("Case Number:", &case_number));
    lines.push(line("Case Owner:", &status.case_owner));
    lines.push(line("Case Contact:", &status.case_contact));
    lines.push(line("Internal Contact:", &status.internal_contact));
    lines.push(line("Case Description:", &status.case_description));
    lines.push(line("Project:", &status.project_id));
    lines.push(line("Part Num:", &status.part_num));
    lines.push(line("Unit Price:", &status.unit_price));
    lines.push(line("Quantity:", &status.qty));
    lines.push(line("Phase:", &status.wbs_phase_id));
    lines.push(line("Op:", &operation));
    lines.push(line("Current Task:", &status.current_task));
    lines.push(line("Assigned To:", &status.current_task_assigned_to));
    lines.push(line("Case Developer:", &status.developer));
    lines.push(line("Request Date:", &status.requested_delivery));
    lines.push(line("Start Date:", &status.start_date));
    lines.push(line("Expected Delivery Date:", &status.expected_delivery_date));
    lines.push(line("Estimated Hours:", &status.estimated_hours));
    lines.push(line("Hours Scheduled:", &status.hours_scheduled));
    lines.push(line("Hours Applied:", &status.hours_applied));
    lines.push(line("Billed Percent:", &status.billed_percent));
    assert(lines_view(lines@) =~= status_lines(case_num, status@));
    lines
}

/// What is shown for the last comment: the comment, or a placeholder where
/// the case has none.
pub open spec fn comment_shown(response: LastCommentSpec) -> Seq<char> {
    match response.comment {
        Some(comment) => comment,
        None => "No comments"@,
    }
}

/// The text to show for the last comment of a case.
pub fn last_comment_text(response: &GetLastCommentResponse) -> (text: String)
    ensures
        text@ == comment_shown(response@),
{
    match &response.comment {
        Some(comment) => comment.clone(),
        None => String::from_str("No comments"),
    }
}

/// What the process does after an action has failed.
#[derive(Debug, Clone, Copy, PartialEq, Eq, Structural)]
pub enum AfterFailure {
    /// The error is passed on and the process ends with a failure.
    Abort,
    /// The error is shown and the process goes on to its ordinary end.
    Continue,
}

/// A failed query ends the process; a failed change is reported and the
/// process goes on.
pub open spec fn after_failure(action: CaseAction) -> AfterFailure {
    match action {
        CaseAction::GetCaseStatus => AfterFailure::Abort,
        CaseAction::GetLastComment => AfterFailure::Abort,
        CaseAction::CompleteTask => AfterFailure::Continue,
        CaseAction::AddCaseComment => AfterFailure::Continue,
        CaseAction::UpdateCaseQuote => AfterFailure::Continue,
    }
}

/// Says what a failure of `action` does to the process.
pub fn on_failure(action: CaseAction) -> (policy: AfterFailure)
    ensures
        policy == after_failure(action),
{
    match action {
        CaseAction::GetCaseStatus => AfterFailure::Abort,
        CaseAction::GetLastComment => AfterFailure::Abort,
        CaseAction::CompleteTask => AfterFailure::Continue,
        CaseAction::AddCaseComment => AfterFailure::Continue,
        CaseAction::UpdateCaseQuote => AfterFailure::Continue,
    }
}

/// What the operator is told of the completion of a task.
pub open spec fn completion_shown(done: Result<(), ApiError>) -> Seq<char> {
    match done {
        Ok(_) => "Task Completed"@,
        Err(error) => "Error Completing Task: "@ + error_text(error@),
    }
}

/// The text to show for the completion of a task.
pub fn completion_report(done: &Result<(), ApiError>) -> (text: String)
    ensures
        text@ == completion_shown(*done),
{
    match done {
        Ok(_) => String::from_str("Task Completed"),
        Err(error) => {
            let message = error.message();
            joined("Error Completing Task: ", message.as_str())
        },
    }
}

} // verus!
