//! What holds of every reply, whatever was asked.

use vstd::prelude::*;
use crate::epicor::decode::{decoded, fields_of, message_text, status_of};
use crate::epicor::envelope::{envelope, header_text, CredentialsSpec, Envelope};
use crate::epicor::error::{ConfigFault, ErrorSpec};
use crate::epicor::report::comment_shown;
use crate::epicor::request::CaseAction;
use crate::epicor::response::{ResponseSpec, StatusSpec};
use crate::epicor::{dispatched, reply_meaning, HttpReply};
use crate::json::{
    flag_member, integer_member, member, number_member, optional_text_member, text_member,
    MemberSpec,
};

verus! {

/// A reply with status 404 means that the function library is not
/// published, whichever action was asked for and whatever the body holds.
pub proof fn not_found_means_not_published(action: CaseAction, members: Option<Seq<MemberSpec>>)
    ensures
        reply_meaning(action, 404, members) == Err::<ResponseSpec, ErrorSpec>(
            ErrorSpec::EndpointNotPublished,
        ),
{
}

/// Any other status outside 200 to 299 is passed on with its number, and
/// the body plays no part.
pub proof fn other_failure_carries_its_status(
    action: CaseAction,
    status: u16,
    members: Option<Seq<MemberSpec>>,
)
    requires
        status < 200 || status > 299,
        status != 404,
    ensures
        reply_meaning(action, status, members) == Err::<ResponseSpec, ErrorSpec>(
            ErrorSpec::Transport(status),
        ),
{
}

/// A successful reply whose body is no JSON object cannot be decoded.
pub proof fn unreadable_body_is_a_decode_error(action: CaseAction, status: u16)
    requires
        200 <= status <= 299,
    ensures
        reply_meaning(action, status, None) == Err::<ResponseSpec, ErrorSpec>(ErrorSpec::Decode),
{
}

/// The response that comes out of a reply is the one of the action that was
/// asked for.
pub proof fn response_answers_its_request(
    action: CaseAction,
    status: u16,
    members: Option<Seq<MemberSpec>>,
)
    ensures
        reply_meaning(action, status, members) matches Ok(response) ==> response.action()
            == action,
{
}

/// A reply whose flag is up is the service's refusal, with the message it
/// gives or an empty one, for every action and whatever else it holds or
/// lacks.
pub proof fn raised_flag_is_a_refusal(
    action: CaseAction,
    members: Seq<MemberSpec>,
    message: Option<Seq<char>>,
)
    requires
        flag_member(members, "Error"@) == Some(true),
        optional_text_member(members, "Message"@) == Some(message),
    ensures
        decoded(action, members) == Err::<ResponseSpec, ErrorSpec>(
            ErrorSpec::RemoteApplication(message_text(message)),
        ),
        message is None ==> decoded(action, members) == Err::<ResponseSpec, ErrorSpec>(
            ErrorSpec::RemoteApplication(Seq::empty()),
        ),
{
}

/// A reply without a flag that is a truth value cannot be decoded.
pub proof fn envelope_needs_its_flag(action: CaseAction, members: Seq<MemberSpec>)
    requires
        flag_member(members, "Error"@) is None,
    ensures
        decoded(action, members) == Err::<ResponseSpec, ErrorSpec>(ErrorSpec::Decode),
{
}

/// A response is decoded only from a reply whose flag is down, and carries
/// that flag.
pub proof fn decoded_response_has_its_flag_down(action: CaseAction, members: Seq<MemberSpec>)
    ensures
        decoded(action, members) matches Ok(response) ==> flag_member(members, "Error"@) == Some(
            false,
        ) && match response {
            ResponseSpec::UpdateQuoteBody(answer) => !answer.error,
            ResponseSpec::CompleteTaskBody(answer) => !answer.error,
            ResponseSpec::CaseStatusBody(answer) => !answer.error,
            ResponseSpec::AddCaseCommentBody(answer) => !answer.error,
            ResponseSpec::GetLastCommentBody(answer) => !answer.error,
        },
{
}

/// No field of a status is lost or renamed: each one of the decoded status
/// is the member of the reply under its protocol name.
pub proof fn status_keeps_every_field(members: Seq<MemberSpec>, status: StatusSpec)
    requires
        decoded(CaseAction::GetCaseStatus, members) == Ok::<ResponseSpec, ErrorSpec>(
            ResponseSpec::CaseStatusBody(status),
        ),
    ensures
        text_member(members, "ProjectID"@) == Some(status.project_id),
        text_member(members, "CaseDescription"@) == Some(status.case_description),
        text_member(members, "PartNum"@) == Some(status.part_num),
        number_member(members, "Qty"@) == Some(status.qty),
        number_member(members, "UnitPrice"@) == Some(status.unit_price),
        text_member(members, "CaseOwner"@) == Some(status.case_owner),
        text_member(members, "InternalContact"@) == Some(status.internal_contact),
        text_member(members, "CaseContact"@) == Some(status.case_contact),
        text_member(members, "CurrentTask"@) == Some(status.current_task),
        text_member(members, "CurrentTaskAssignedTo"@) == Some(status.current_task_assigned_to),
        text_member(members, "RequestedDelivery"@) == Some(status.requested_delivery),
        text_member(members, "StartDate"@) == Some(status.start_date),
        text_member(members, "ExpectedDeliveryDate"@) == Some(status.expected_delivery_date),
        text_member(members, "Developer"@) == Some(status.developer),
        text_member(members, "WBSPhaseID"@) == Some(status.wbs_phase_id),
        integer_member(members, "WBSPhaseOp"@) == Some(status.wbs_phase_op),
        number_member(members, "EstimatedHours"@) == Some(status.estimated_hours),
        number_member(members, "HoursScheduled"@) == Some(status.hours_scheduled),
        number_member(members, "HoursApplied"@) == Some(status.hours_applied),
        number_member(members, "BilledPercent"@) == Some(status.billed_percent),
        status.message == message_text(optional_text_member(members, "Message"@)->0),
        !status.error,
{
    let message = optional_text_member(members, "Message"@)->0;
    assert(fields_of(CaseAction::GetCaseStatus, members, message) is Some);
    assert(status_of(members, message_text(message)) == Some(status));
}

/// A reply to the request for the last comment that holds no comment is
/// decoded all the same, and the placeholder is what is shown for it.
pub proof fn absent_comment_shows_the_placeholder(members: Seq<MemberSpec>)
    requires
        flag_member(members, "Error"@) == Some(false),
        optional_text_member(members, "Message"@) is Some,
        member(members, "Comment"@) is None,
    ensures
        decoded(CaseAction::GetLastComment, members) matches Ok(
            ResponseSpec::GetLastCommentBody(answer),
        ) && answer.comment is None && comment_shown(answer) == "No comments"@,
{
}

/// A transport that answers every post with status 404 fails every call
/// that gets as far as the post, whichever request it carries, with the
/// report that the function library is not published.
pub proof fn not_found_fails_every_call<T: Fn(&Envelope) -> Option<HttpReply>>(
    transport: T,
    credentials: CredentialsSpec,
    action: CaseAction,
    endpoint: Seq<char>,
    body: Seq<char>,
    outcome: Result<ResponseSpec, ErrorSpec>,
)
    requires
        forall|posted: Envelope, reply: Option<HttpReply>| #[trigger]
            call_ensures(transport, (&posted,), reply) ==> (reply matches Some(answer)
                && answer.status == 404),
        envelope(credentials, endpoint, body) is Ok,
        dispatched(transport, credentials, action, endpoint, body, outcome),
    ensures
        outcome == Err::<ResponseSpec, ErrorSpec>(ErrorSpec::EndpointNotPublished),
{
}

/// Whatever the transport answers, the response that a call hands out is
/// the one of the action that was asked for.
pub proof fn call_answers_its_request<T: Fn(&Envelope) -> Option<HttpReply>>(
    transport: T,
    credentials: CredentialsSpec,
    action: CaseAction,
    endpoint: Seq<char>,
    body: Seq<char>,
    outcome: Result<ResponseSpec, ErrorSpec>,
)
    requires
        dispatched(transport, credentials, action, endpoint, body, outcome),
    ensures
        outcome matches Ok(response) ==> response.action() == action,
{
}

/// A call whose key or authorization no header can carry is refused for
/// that, whatever the transport would have answered.
pub proof fn unsendable_credentials_stop_the_call<T: Fn(&Envelope) -> Option<HttpReply>>(
    transport: T,
    credentials: CredentialsSpec,
    action: CaseAction,
    endpoint: Seq<char>,
    body: Seq<char>,
    outcome: Result<ResponseSpec, ErrorSpec>,
)
    requires
        !header_text(credentials.api_key) || !header_text(credentials.basic_auth),
        dispatched(transport, credentials, action, endpoint, body, outcome),
    ensures
        outcome matches Err(ErrorSpec::Configuration(ConfigFault::Unencodable(_))),
{
}

} // verus!
