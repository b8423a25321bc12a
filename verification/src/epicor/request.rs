//! What is asked of the case API: one request shape for each action, and the
//! JSON body that each is sent as.

use vstd::prelude::*;
use vstd::string::*;
use crate::json::{frame_one, frame_two, json_string, object_of_one, object_of_two, quoted};
use crate::quantity::Quantity;
use crate::text::{decimal, decimal_text};

verus! {

/// Asks for the last comment on a case.
#[derive(Debug, Clone, PartialEq, Eq)]
pub struct GetLastCommentInput {
    pub case_num: u32,
}

impl GetLastCommentInput {
    pub fn new(case_num: u32) -> (input: Self)
        ensures
            input.case_num == case_num,
    {
        Self { case_num }
    }
}

/// Adds a comment to a case.
#[derive(Debug, Clone, PartialEq, Eq)]
pub struct AddCaseCommentInput {
    pub case_num: u32,
    pub comment: String,
}

impl AddCaseCommentInput {
    pub fn new(case_num: u32, comment: &str) -> (input: Self)
        ensures
            input.case_num == case_num,
            input.comment@ == comment@,
    {
        Self { case_num, comment: String::from_str(comment) }
    }
}

/// Sets the quantity of the part on a case, from which its quote follows.
#[derive(Debug, Clone, PartialEq, Eq)]
pub struct UpdateQuoteInput {
    pub case_num: u32,
    pub new_quantity: Quantity,
}

impl UpdateQuoteInput {
    pub fn new(case_num: u32, new_quantity: Quantity) -> (input: Self)
        ensures
            input.case_num == case_num,
            input.new_quantity@ == new_quantity@,
    {
        Self { case_num, new_quantity }
    }
}

/// Completes the current task of a case and names who takes the next one.
#[derive(Debug, Clone, PartialEq, Eq)]
pub struct CompleteTaskInput {
    pub case_num: u32,
    pub assign_next_to_name: String,
}

impl CompleteTaskInput {
    pub fn new(case_num: u32, assign_next_to_name: &str) -> (input: Self)
        ensures
            input.case_num == case_num,
            input.assign_next_to_name@ == assign_next_to_name@,
    {
        Self { case_num, assign_next_to_name: String::from_str(assign_next_to_name) }
    }
}

/// Asks for the status of a case.
#[derive(Debug, Clone, PartialEq, Eq)]
pub struct CaseStatusInput {
    pub case_num: u32,
}

impl CaseStatusInput {
    pub fn new(case_num: u32) -> (input: Self)
        ensures
            input.case_num == case_num,
    {
        Self { case_num }
    }
}

/// The five actions of the case API, by which a request and its response
/// belong together.
#[derive(Debug, Clone, Copy, PartialEq, Eq, Structural)]
pub enum CaseAction {
    UpdateCaseQuote,
    CompleteTask,
    GetCaseStatus,
    AddCaseComment,
    GetLastComment,
}

impl CaseAction {
    /// The path of the action below the API's root.
    pub open spec fn path(self) -> Seq<char> {
        match self {
            CaseAction::UpdateCaseQuote => "efx/100/Omni/UpdateCaseQuote"@,
            CaseAction::CompleteTask => "efx/100/Omni/CompleteTask"@,
            CaseAction::GetCaseStatus => "efx/100/Omni/GetCaseStatus"@,
            CaseAction::AddCaseComment => "efx/100/Omni/AddCaseComment"@,
            CaseAction::GetLastComment => "efx/100/Omni/GetLastComment"@,
        }
    }

    pub fn endpoint(&self) -> (path: &'static str)
        ensures
            path@ == self.path(),
    {
        match self {
            CaseAction::UpdateCaseQuote => "efx/100/Omni/UpdateCaseQuote",
            CaseAction::CompleteTask => "efx/100/Omni/CompleteTask",
            CaseAction::GetCaseStatus => "efx/100/Omni/GetCaseStatus",
            CaseAction::AddCaseComment => "efx/100/Omni/AddCaseComment",
            CaseAction::GetLastComment => "efx/100/Omni/GetLastComment",
        }
    }
}

/// The body that asks about a case and adds nothing: the case number.
pub open spec fn case_body(case_num: u32) -> Seq<char> {
    object_of_one("CaseNum"@, decimal(case_num as nat))
}

/// The body that sets a quantity: the case number, then the quantity as the
/// number it is.
pub open spec fn quote_body(case_num: u32, quantity: Seq<char>) -> Seq<char> {
    object_of_two("CaseNum"@, decimal(case_num as nat), "Qty"@, quantity)
}

/// The body that completes a task: the case number, then the name of the
/// next assignee as a JSON string.
pub open spec fn completion_body(case_num: u32, assign_next_to_name: Seq<char>) -> Seq<char> {
    object_of_two(
        "CaseNum"@,
        decimal(case_num as nat),
        "AssignNextToName"@,
        json_string(assign_next_to_name),
    )
}

/// The body that adds a comment: the case number, then the comment as a
/// JSON string.
pub open spec fn comment_body(case_num: u32, comment: Seq<char>) -> Seq<char> {
    object_of_two("CaseNum"@, decimal(case_num as nat), "Comment"@, json_string(comment))
}

/// A request to the case API.
#[derive(Debug, Clone, PartialEq, Eq)]
pub enum RequestBodyType {
    UpdateQuoteBody(UpdateQuoteInput),
    CompleteTaskBody(CompleteTaskInput),
    CaseStatusBody(CaseStatusInput),
    AddCaseCommentBody(AddCaseCommentInput),
    GetLastCommentBody(GetLastCommentInput),
}

impl RequestBodyType {
    /// The action that the request is for.
    pub open spec fn action(self) -> CaseAction {
        match self {
            RequestBodyType::UpdateQuoteBody(_) => CaseAction::UpdateCaseQuote,
            RequestBodyType::CompleteTaskBody(_) => CaseAction::CompleteTask,
            RequestBodyType::CaseStatusBody(_) => CaseAction::GetCaseStatus,
            RequestBodyType::AddCaseCommentBody(_) => CaseAction::AddCaseComment,
            RequestBodyType::GetLastCommentBody(_) => CaseAction::GetLastComment,
        }
    }

    /// The JSON object that the request travels as.
    pub open spec fn body(self) -> Seq<char> {
        match self {
            RequestBodyType::UpdateQuoteBody(input) => quote_body(
                input.case_num,
                input.new_quantity@,
            ),
            RequestBodyType::CompleteTaskBody(input) => completion_body(
                input.case_num,
                input.assign_next_to_name@,
            ),
            RequestBodyType::CaseStatusBody(input) => case_body(input.case_num),
            RequestBodyType::AddCaseCommentBody(input) => comment_body(
                input.case_num,
                input.comment@,
            ),
            RequestBodyType::GetLastCommentBody(input) => case_body(input.case_num),
        }
    }

    pub fn kind(&self) -> (action: CaseAction)
        ensures
            action == self.action(),
    {
        match self {
            RequestBodyType::UpdateQuoteBody(_) => CaseAction::UpdateCaseQuote,
            RequestBodyType::CompleteTaskBody(_) => CaseAction::CompleteTask,
            RequestBodyType::CaseStatusBody(_) => CaseAction::GetCaseStatus,
            RequestBodyType::AddCaseCommentBody(_) => CaseAction::AddCaseComment,
            RequestBodyType::GetLastCommentBody(_) => CaseAction::GetLastComment,
        }
    }

    /// Writes the request as its JSON body.
    pub fn to_json(&self) -> (text: String)
        ensures
            text@ == self.body(),
    {
        match self {
            RequestBodyType::UpdateQuoteBody(input) => {
                let case_num = decimal_text(input.case_num as u64);
                frame_two("CaseNum", case_num.as_str(), "Qty", input.new_quantity.as_str())
            },
            RequestBodyType::CompleteTaskBody(input) => {
                let case_num = decimal_text(input.case_num as u64);
                let name = quoted(input.assign_next_to_name.as_str());
                frame_two("CaseNum", case_num.as_str(), "AssignNextToName", name.as_str())
            },
            RequestBodyType::CaseStatusBody(input) => {
                let case_num = decimal_text(input.case_num as u64);
                frame_one("CaseNum", case_num.as_str())
            },
            RequestBodyType::AddCaseCommentBody(input) => {
                let case_num = decimal_text(input.case_num as u64);
                let comment = quoted(input.comment.as_str());
                frame_two("CaseNum", case_num.as_str(), "Comment", comment.as_str())
            },
            RequestBodyType::GetLastCommentBody(input) => {
                let case_num = decimal_text(input.case_num as u64);
                frame_one("CaseNum", case_num.as_str())
            },
        }
    }
}

} // verus!
