//! What the case API answers: one response shape for each action.

use vstd::prelude::*;
use vstd::string::*;
use crate::epicor::request::CaseAction;
use crate::text::optional_text;

verus! {

/// The answer to a request for the last comment.
#[derive(Debug, Clone, PartialEq, Eq)]
pub struct GetLastCommentResponse {
    pub error: bool,
    pub message: Option<String>,
    pub comment: Option<String>,
}

pub struct LastCommentSpec {
    pub error: bool,
    pub message: Option<Seq<char>>,
    pub comment: Option<Seq<char>>,
}

impl View for GetLastCommentResponse {
    type V = LastCommentSpec;

    open spec fn view(&self) -> LastCommentSpec {
        LastCommentSpec {
            error: self.error,
            message: optional_text(self.message),
            comment: optional_text(self.comment),
        }
    }
}

/// The answer to a new comment.
#[derive(Debug, Clone, PartialEq, Eq)]
pub struct AddCaseCommentResponse {
    pub error: bool,
    pub message: Option<String>,
}

pub struct AddCommentSpec {
    pub error: bool,
    pub message: Option<Seq<char>>,
}

impl View for AddCaseCommentResponse {
    type V = AddCommentSpec;

    open spec fn view(&self) -> AddCommentSpec {
        AddCommentSpec { error: self.error, message: optional_text(self.message) }
    }
}

/// The answer to a new quantity.
#[derive(Debug, Clone, PartialEq, Eq)]
pub struct UpdateQuoteResponse {
    pub error: bool,
    pub message: String,
}

pub struct UpdateQuoteSpec {
    pub error: bool,
    pub message: Seq<char>,
}

impl View for UpdateQuoteResponse {
    type V = UpdateQuoteSpec;

    open spec fn view(&self) -> UpdateQuoteSpec {
        UpdateQuoteSpec { error: self.error, message: self.message@ }
    }
}

/// The answer to the completion of a task: whether the case had a task to
/// complete, whether the caller may complete it, and how the search for the
/// next assignee went.
#[derive(Debug, Clone, PartialEq, Eq)]
pub struct CompleteTaskResponse {
    pub error: bool,
    pub message: String,
    pub has_active_task: bool,
    pub authorized_to_complete_task: bool,
    pub multiple_sales_rep_matches: bool,
    pub no_sales_rep_match: bool,
}

pub struct CompleteTaskSpec {
    pub error: bool,
    pub message: Seq<char>,
    pub has_active_task: bool,
    pub authorized_to_complete_task: bool,
    pub multiple_sales_rep_matches: bool,
    pub no_sales_rep_match: bool,
}

impl View for CompleteTaskResponse {
    type V = CompleteTaskSpec;

    open spec fn view(&self) -> CompleteTaskSpec {
        CompleteTaskSpec {
            error: self.error,
            message: self.message@,
            has_active_task: self.has_active_task,
            authorized_to_complete_task: self.authorized_to_complete_task,
            multiple_sales_rep_matches: self.multiple_sales_rep_matches,
            no_sales_rep_match: self.no_sales_rep_match,
        }
    }
}

/// The status of a case. Amounts, hours and the percentage are kept as the
/// decimal text in which they arrived.
#[derive(Debug, Clone, PartialEq, Eq)]
pub struct CaseStatusResponse {
    pub error: bool,
    pub message: String,
    pub project_id: String,
    pub case_description: String,
    pub part_num: String,
    pub qty: String,
    pub unit_price: String,
    pub case_owner: String,
    pub internal_contact: String,
    pub case_contact: String,
    pub current_task: String,
    pub current_task_assigned_to: String,
    pub requested_delivery: String,
    pub start_date: String,
    pub expected_delivery_date: String,
    pub developer: String,
    pub wbs_phase_id: String,
    pub wbs_phase_op: i32,
    pub estimated_hours: String,
    pub hours_scheduled: String,
    pub hours_applied: String,
    pub billed_percent: String,
}

pub struct StatusSpec {
    pub error: bool,
    pub message: Seq<char>,
    pub project_id: Seq<char>,
    pub case_description: Seq<char>,
    pub part_num: Seq<char>,
    pub qty: Seq<char>,
    pub unit_price: Seq<char>,
    pub case_owner: Seq<char>,
    pub internal_contact: Seq<char>,
    pub case_contact: Seq<char>,
    pub current_task: Seq<char>,
    pub current_task_assigned_to: Seq<char>,
    pub requested_delivery: Seq<char>,
    pub start_date: Seq<char>,
    pub expected_delivery_date: Seq<char>,
    pub developer: Seq<char>,
    pub wbs_phase_id: Seq<char>,
    pub wbs_phase_op: i32,
    pub estimated_hours: Seq<char>,
    pub hours_scheduled: Seq<char>,
    pub hours_applied: Seq<char>,
    pub billed_percent: Seq<char>,
}

impl View for CaseStatusResponse {
    type V = StatusSpec;

    open spec fn view(&self) -> StatusSpec {
        StatusSpec {
            error: self.error,
            message: self.message@,
            project_id: self.project_id@,
            case_description: self.case_description@,
            part_num: self.part_num@,
            qty: self.qty@,
            unit_price: self.unit_price@,
            case_owner: self.case_owner@,
            internal_contact: self.internal_contact@,
            case_contact: self.case_contact@,
            current_task: self.current_task@,
            current_task_assigned_to: self.current_task_assigned_to@,
            requested_delivery: self.requested_delivery@,
            start_date: self.start_date@,
            expected_delivery_date: self.expected_delivery_date@,
            developer: self.developer@,
            wbs_phase_id: self.wbs_phase_id@,
            wbs_phase_op: self.wbs_phase_op,
            estimated_hours: self.estimated_hours@,
            hours_scheduled: self.hours_scheduled@,
            hours_applied: self.hours_applied@,
            billed_percent: self.billed_percent@,
        }
    }
}

/// A response of the case API.
#[derive(Debug, Clone, PartialEq, Eq)]
pub enum ApiResponse {
    UpdateQuoteBody(UpdateQuoteResponse),
    CompleteTaskBody(CompleteTaskResponse),
    CaseStatusBody(CaseStatusResponse),
    AddCaseCommentBody(AddCaseCommentResponse),
    GetLastCommentBody(GetLastCommentResponse),
}

pub enum ResponseSpec {
    UpdateQuoteBody(UpdateQuoteSpec),
    CompleteTaskBody(CompleteTaskSpec),
    CaseStatusBody(StatusSpec),
    AddCaseCommentBody(AddCommentSpec),
    GetLastCommentBody(LastCommentSpec),
}

impl View for ApiResponse {
    type V = ResponseSpec;

    open spec fn view(&self) -> ResponseSpec {
        match self {
            ApiResponse::UpdateQuoteBody(response) => ResponseSpec::UpdateQuoteBody(response@),
            ApiResponse::CompleteTaskBody(response) => ResponseSpec::CompleteTaskBody(response@),
            ApiResponse::CaseStatusBody(response) => ResponseSpec::CaseStatusBody(response@),
            ApiResponse::AddCaseCommentBody(response) => ResponseSpec::AddCaseCommentBody(
                response@,
            ),
            ApiResponse::GetLastCommentBody(response) => ResponseSpec::GetLastCommentBody(
                response@,
            ),
        }
    }
}

impl ResponseSpec {
    /// The action that the response answers.
    pub open spec fn action(self) -> CaseAction {
        match self {
            ResponseSpec::UpdateQuoteBody(_) => CaseAction::UpdateCaseQuote,
            ResponseSpec::CompleteTaskBody(_) => CaseAction::CompleteTask,
            ResponseSpec::CaseStatusBody(_) => CaseAction::GetCaseStatus,
            ResponseSpec::AddCaseCommentBody(_) => CaseAction::AddCaseComment,
            ResponseSpec::GetLastCommentBody(_) => CaseAction::GetLastComment,
        }
    }
}

impl ApiResponse {
    pub fn kind(&self) -> (action: CaseAction)
        ensures
            action == self@.action(),
    {
        match self {
            ApiResponse::UpdateQuoteBody(_) => CaseAction::UpdateCaseQuote,
            ApiResponse::CompleteTaskBody(_) => CaseAction::CompleteTask,
            ApiResponse::CaseStatusBody(_) => CaseAction::GetCaseStatus,
            ApiResponse::AddCaseCommentBody(_) => CaseAction::AddCaseComment,
            ApiResponse::GetLastCommentBody(_) => CaseAction::GetLastComment,
        }
    }
}

} // verus!
