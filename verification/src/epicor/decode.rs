//! Reading a response out of the members of a reply's JSON object.
//!
//! Every reply is an envelope: a flag `Error` and a `Message` that may be
//! left out. Only when the flag is down are the action's own fields read.

use vstd::prelude::*;
use vstd::string::*;
use crate::epicor::error::{ApiError, ErrorSpec};
use crate::epicor::request::CaseAction;
use crate::epicor::response::{
    AddCaseCommentResponse, AddCommentSpec, ApiResponse, CaseStatusResponse, CompleteTaskResponse,
    CompleteTaskSpec, GetLastCommentResponse, LastCommentSpec, ResponseSpec, StatusSpec,
    UpdateQuoteResponse, UpdateQuoteSpec,
};
use crate::json::{
    flag_member, flag_of, integer_member, integer_of, members_view, number_member, number_of,
    optional_text_member, optional_text_of, text_member, text_of, JsonMember, MemberSpec,
};
use crate::text::{optional_text, result_view};

verus! {

/// The text of a message, empty where the reply left the message out.
pub open spec fn message_text(message: Option<Seq<char>>) -> Seq<char> {
    match message {
        Some(text) => text,
        None => Seq::empty(),
    }
}

/// The flags that answer the completion of a task; all four have to be
/// there.
pub open spec fn completion_of(members: Seq<MemberSpec>, message: Seq<char>) -> Option<
    CompleteTaskSpec,
> {
    if flag_member(members, "HasActiveTask"@) is Some && flag_member(
        members,
        "AuthorizedToCompleteTask"@,
    ) is Some && flag_member(members, "MultipleSalesRepMatches"@) is Some && flag_member(
        members,
        "NoSalesRepMatch"@,
    ) is Some {
        Some(
            CompleteTaskSpec {
                error: false,
                message,
                has_active_task: flag_member(members, "HasActiveTask"@)->0,
                authorized_to_complete_task: flag_member(members, "AuthorizedToCompleteTask"@)->0,
                multiple_sales_rep_matches: flag_member(members, "MultipleSalesRepMatches"@)->0,
                no_sales_rep_match: flag_member(members, "NoSalesRepMatch"@)->0,
            },
        )
    } else {
        None
    }
}

/// Whether the members hold every field of a status, each of its kind:
/// thirteen texts, six numbers and one integer.
pub open spec fn holds_status(members: Seq<MemberSpec>) -> bool {
    &&& text_member(members, "ProjectID"@) is Some
    &&& text_member(members, "CaseDescription"@) is Some
    &&& text_member(members, "PartNum"@) is Some
    &&& number_member(members, "Qty"@) is Some
    &&& number_member(members, "UnitPrice"@) is Some
    &&& text_member(members, "CaseOwner"@) is Some
    &&& text_member(members, "InternalContact"@) is Some
    &&& text_member(members, "CaseContact"@) is Some
    &&& text_member(members, "CurrentTask"@) is Some
    &&& text_member(members, "CurrentTaskAssignedTo"@) is Some
    &&& text_member(members, "RequestedDelivery"@) is Some
    &&& text_member(members, "StartDate"@) is Some
    &&& text_member(members, "ExpectedDeliveryDate"@) is Some
    &&& text_member(members, "Developer"@) is Some
    &&& text_member(members, "WBSPhaseID"@) is Some
    &&& integer_member(members, "WBSPhaseOp"@) is Some
    &&& number_member(members, "EstimatedHours"@) is Some
    &&& number_member(members, "HoursScheduled"@) is Some
    &&& number_member(members, "HoursApplied"@) is Some
    &&& number_member(members, "BilledPercent"@) is Some
}

/// The status that the members hold, each field under its protocol name.
pub open spec fn status_of(members: Seq<MemberSpec>, message: Seq<char>) -> Option<StatusSpec> {
    if holds_status(members) {
        Some(
            StatusSpec {
                error: false,
                message,
                project_id: text_member(members, "ProjectID"@)->0,
                case_description: text_member(members, "CaseDescription"@)->0,
                part_num: text_member(members, "PartNum"@)->0,
                qty: number_member(members, "Qty"@)->0,
                unit_price: number_member(members, "UnitPrice"@)->0,
                case_owner: text_member(members, "CaseOwner"@)->0,
                internal_contact: text_member(members, "InternalContact"@)->0,
                case_contact: text_member(members, "CaseContact"@)->0,
                current_task: text_member(members, "CurrentTask"@)->0,
                current_task_assigned_to: text_member(members, "CurrentTaskAssignedTo"@)->0,
                requested_delivery: text_member(members, "RequestedDelivery"@)->0,
                start_date: text_member(members, "StartDate"@)->0,
                expected_delivery_date: text_member(members, "ExpectedDeliveryDate"@)->0,
                developer: text_member(members, "Developer"@)->0,
                wbs_phase_id: text_member(members, "WBSPhaseID"@)->0,
                wbs_phase_op: integer_member(members, "WBSPhaseOp"@)->0,
                estimated_hours: number_member(members, "EstimatedHours"@)->0,
                hours_scheduled: number_member(members, "HoursScheduled"@)->0,
                hours_applied: number_member(members, "HoursApplied"@)->0,
                billed_percent: number_member(members, "BilledPercent"@)->0,
            },
        )
    } else {
        None
    }
}

/// The action's own part of a reply whose flag is down.
pub open spec fn fields_of(action: CaseAction, members: Seq<MemberSpec>, message: Option<Seq<char>>) -> Option<
    ResponseSpec,
> {
    match action {
        CaseAction::UpdateCaseQuote => Some(
            ResponseSpec::UpdateQuoteBody(
                UpdateQuoteSpec { error: false, message: message_text(message) },
            ),
        ),
        CaseAction::CompleteTask => match completion_of(members, message_text(message)) {
            Some(completion) => Some(ResponseSpec::CompleteTaskBody(completion)),
            None => None,
        },
        CaseAction::GetCaseStatus => match status_of(members, message_text(message)) {
            Some(status) => Some(ResponseSpec::CaseStatusBody(status)),
            None => None,
        },
        CaseAction::AddCaseComment => Some(
            ResponseSpec::AddCaseCommentBody(AddCommentSpec { error: false, message }),
        ),
        CaseAction::GetLastComment => match optional_text_member(members, "Comment"@) {
            Some(comment) => Some(
                ResponseSpec::GetLastCommentBody(LastCommentSpec { error: false, message, comment }),
            ),
            None => None,
        },
    }
}

/// What a reply's members mean for an action. The envelope comes first: a
/// flag `Error` that is a truth value and a `Message` that is text, `null`
/// or left out. With the flag up the reply is the service's refusal, with
/// its message, whatever else it holds. With the flag down it has to hold
/// the action's fields.
pub open spec fn decoded(action: CaseAction, members: Seq<MemberSpec>) -> Result<ResponseSpec, ErrorSpec> {
    match (flag_member(members, "Error"@), optional_text_member(members, "Message"@)) {
        (Some(error), Some(message)) => if error {
            Err(ErrorSpec::RemoteApplication(message_text(message)))
        } else {
            match fields_of(action, members, message) {
                Some(response) => Ok(response),
                None => Err(ErrorSpec::Decode),
            }
        },
        _ => Err(ErrorSpec::Decode),
    }
}

fn text_or_empty(message: Option<String>) -> (text: String)
    ensures
        text@ == message_text(optional_text(message)),
{
    match message {
        Some(text) => text,
        None => String::new(),
    }
}

fn decode_completion(members: &Vec<JsonMember>, message: String) -> (completion: Option<
    CompleteTaskResponse,
>)
    ensures
        match completion {
            Some(response) => completion_of(members_view(members@), message@) == Some(response@),
            None => completion_of(members_view(members@), message@) is None,
        },
{
    let has_active_task = match flag_of(members, "HasActiveTask") {
        Some(flag) => flag,
        None => {
            return None;
        },
    };
    let authorized_to_complete_task = match flag_of(members, "AuthorizedToCompleteTask") {
        Some(flag) => flag,
        None => {
            return None;
        },
    };
    let multiple_sales_rep_matches = match flag_of(members, "MultipleSalesRepMatches") {
        Some(flag) => flag,
        None => {
            return None;
        },
    };
    let no_sales_rep_match = match flag_of(members, "NoSalesRepMatch") {
        Some(flag) => flag,
        None => {
            return None;
        },
    };
    Some(
        CompleteTaskResponse {
            error: false,
            message,
            has_active_task,
            authorized_to_complete_task,
            multiple_sales_rep_matches,
            no_sales_rep_match,
        },
    )
}

fn decode_status(members: &Vec<JsonMember>, message: String) -> (status: Option<CaseStatusResponse>)
    ensures
        match status {
            Some(response) => status_of(members_view(members@), message@) == Some(response@),
            None => status_of(members_view(members@), message@) is None,
        },
{
    let project_id = match text_of(members, "ProjectID") {
        Some(text) => text,
        None => {
            return None;
        },
    };
    let case_description = match text_of(members, "CaseDescription") {
        Some(text) => text,
        None => {
            return None;
        },
    };
    let part_num = match text_of(members, "PartNum") {
        Some(text) => text,
        None => {
            return None;
        },
    };
    let qty = match number_of(members, "Qty") {
        Some(text) => text,
        None => {
            return None;
        },
    };
    let unit_price = match number_of(members, "UnitPrice") {
        Some(text) => text,
        None => {
            return None;
        },
    };
    let case_owner = match text_of(members, "CaseOwner") {
        Some(text) => text,
        None => {
            return None;
        },
    };
    let internal_contact = match text_of(members, "InternalContact") {
        Some(text) => text,
        None => {
            return None;
        },
    };
    let case_contact = match text_of(members, "CaseContact") {
        Some(text) => text,
        None => {
            return None;
        },
    };
    let current_task = match text_of(members, "CurrentTask") {
        Some(text) => text,
        None => {
            return None;
        },
    };
    let current_task_assigned_to = match text_of(members, "CurrentTaskAssignedTo") {
        Some(text) => text,
        None => {
            return None;
        },
    };
    let requested_delivery = match text_of(members, "RequestedDelivery") {
        Some(text) => text,
        None => {
            return None;
        },
    };
    let start_date = match text_of(members, "StartDate") {
        Some(text) => text,
        None => {
            return None;
        },
    };
    let expected_delivery_date = match text_of(members, "ExpectedDeliveryDate") {
        Some(text) => text,
        None => {
            return None;
        },
    };
    let developer = match text_of(members, "Developer") {
        Some(text) => text,
        None => {
            return None;
        },
    };
    let wbs_phase_id = match text_of(members, "WBSPhaseID") {
        Some(text) => text,
        None => {
            return None;
        },
    };
    let wbs_phase_op = match integer_of(members, "WBSPhaseOp") {
        Some(value) => value,
        None => {
            return None;
        },
    };
    let estimated_hours = match number_of(members, "EstimatedHours") {
        Some(text) => text,
        None => {
            return None;
        },
    };
    let hours_scheduled = match number_of(members, "HoursScheduled") {
        Some(text) => text,
        None => {
            return None;
        },
    };
    let hours_applied = match number_of(members, "HoursApplied") {
        Some(text) => text,
        None => {
            return None;
        },
    };
    let billed_percent = match number_of(members, "BilledPercent") {
        Some(text) => text,
        None => {
            return None;
        },
    };
    Some(
        CaseStatusResponse {
            error: false,
            message,
            project_id,
            case_description,
            part_num,
            qty,
            unit_price,
            case_owner,
            internal_contact,
            case_contact,
            current_task,
            current_task_assigned_to,
            requested_delivery,
            start_date,
            expected_delivery_date,
            developer,
            wbs_phase_id,
            wbs_phase_op,
            estimated_hours,
            hours_scheduled,
            hours_applied,
            billed_percent,
        },
    )
}

/// Reads the response to `action` out of the members of a reply.
pub fn decode_response(action: CaseAction, members: &Vec<JsonMember>) -> (response: Result<
    ApiResponse,
    ApiError,
>)
    ensures
        result_view(response) == decoded(action, members_view(members@)),
        response matches Ok(answer) ==> answer@.action() == action,
{
    let error = match flag_of(members, "Error") {
        Some(flag) => flag,
        None => {
            return Err(ApiError::Decode);
        },
    };
    let message = match optional_text_of(members, "Message") {
        Some(text) => text,
        None => {
            return Err(ApiError::Decode);
        },
    };
    if error {
        return Err(ApiError::RemoteApplication(text_or_empty(message)));
    }
    match action {
        CaseAction::UpdateCaseQuote => Ok(
            ApiResponse::UpdateQuoteBody(
                UpdateQuoteResponse { error: false, message: text_or_empty(message) },
            ),
        ),
        CaseAction::CompleteTask => match decode_completion(members, text_or_empty(message)) {
            Some(completion) => Ok(ApiResponse::CompleteTaskBody(completion)),
            None => Err(ApiError::Decode),
        },
        CaseAction::GetCaseStatus => match decode_status(members, text_or_empty(message)) {
            Some(status) => Ok(ApiResponse::CaseStatusBody(status)),
            None => Err(ApiError::Decode),
        },
        CaseAction::AddCaseComment => Ok(
            ApiResponse::AddCaseCommentBody(AddCaseCommentResponse { error: false, message }),
        ),
        CaseAction::GetLastComment => match optional_text_of(members, "Comment") {
            Some(comment) => Ok(
                ApiResponse::GetLastCommentBody(
                    GetLastCommentResponse { error: false, message, comment },
                ),
            ),
            None => Err(ApiError::Decode),
        },
    }
}

} // verus!
