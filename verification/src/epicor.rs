//! The case API of the ERP system: requests, the envelope they are sent in,
//! and what a reply means.
//!
//! Posting a request is the caller's part: every function that talks to the
//! service takes the transport as a function from envelope to reply.

pub mod decode;
pub mod envelope;
pub mod error;
pub mod laws;
pub mod report;
pub mod request;
pub mod response;
pub mod time_entry;

use vstd::pervasive::unreached;
use vstd::prelude::*;
use vstd::string::*;
use crate::epicor::decode::{decode_response, decoded};
use crate::epicor::envelope::{build_envelope, envelope, ApiCredentials, CredentialsSpec, Envelope};
use crate::epicor::error::{ApiError, ErrorSpec};
use crate::epicor::report::{
    case_status_lines, comment_shown, last_comment_text, lines_view, status_lines, StatusLine,
};
use crate::epicor::request::{
    case_body, comment_body, completion_body, quote_body, AddCaseCommentInput, CaseAction,
    CaseStatusInput, CompleteTaskInput, GetLastCommentInput, RequestBodyType, UpdateQuoteInput,
};
use crate::epicor::response::{ApiResponse, ResponseSpec};
use crate::json::{json_members, parse_members, MemberSpec};
use crate::quantity::Quantity;
use crate::text::result_view;

verus! {

/// What came back for a request: the HTTP status and the body.
#[derive(Debug, Clone, PartialEq, Eq)]
pub struct HttpReply {
    pub status: u16,
    pub body: String,
}

/// Whether a status reports success: 200 to 299.
pub open spec fn is_success(status: u16) -> bool {
    200 <= status <= 299
}

/// The error that a status by itself amounts to, if any: 404 says that the
/// function library is not published, whatever was asked; any other status
/// outside the successes is passed on with its number.
pub open spec fn status_fault(status: u16) -> Option<ErrorSpec> {
    if is_success(status) {
        None
    } else if status == 404 {
        Some(ErrorSpec::EndpointNotPublished)
    } else {
        Some(ErrorSpec::Transport(status))
    }
}

/// Sorts a status into success and the two kinds of failure.
pub fn classify_status(status: u16) -> (verdict: Result<(), ApiError>)
    ensures
        match verdict {
            Ok(_) => status_fault(status) is None,
            Err(error) => status_fault(status) == Some(error@),
        },
{
    if 200 <= status && status <= 299 {
        Ok(())
    } else if status == 404 {
        Err(ApiError::EndpointNotPublished)
    } else {
        Err(ApiError::Transport(status))
    }
}

/// What a reply means for an action, given the members of its body where
/// the body is a JSON object. The status is judged first; the body of a
/// failure is not looked at.
pub open spec fn reply_meaning(action: CaseAction, status: u16, members: Option<Seq<MemberSpec>>) -> Result<
    ResponseSpec,
    ErrorSpec,
> {
    match status_fault(status) {
        Some(error) => Err(error),
        None => match members {
            Some(members) => decoded(action, members),
            None => Err(ErrorSpec::Decode),
        },
    }
}

/// What the outcome of a post means for an action: no reply, or the meaning
/// of the reply.
pub open spec fn outcome_of(action: CaseAction, reply: Option<HttpReply>) -> Result<
    ResponseSpec,
    ErrorSpec,
> {
    match reply {
        Some(reply) => reply_meaning(action, reply.status, json_members(reply.body@)),
        None => Err(ErrorSpec::Unreachable),
    }
}

/// Reads the response to `action` out of a reply.
pub fn read_reply(action: CaseAction, reply: &HttpReply) -> (response: Result<ApiResponse, ApiError>)
    ensures
        result_view(response) == reply_meaning(action, reply.status, json_members(reply.body@)),
        response matches Ok(answer) ==> answer@.action() == action,
{
    match classify_status(reply.status) {
        Err(error) => Err(error),
        Ok(_) => match parse_members(reply.body.as_str()) {
            Ok(members) => decode_response(action, &members),
            Err(_) => Err(ApiError::Decode),
        },
    }
}

/// Whether `outcome` is what a call can come to: the refusal to build the
/// envelope; or the meaning of something that `transport` may answer when
/// handed the envelope.
pub open spec fn dispatched<T: Fn(&Envelope) -> Option<HttpReply>>(
    transport: T,
    credentials: CredentialsSpec,
    action: CaseAction,
    endpoint: Seq<char>,
    body: Seq<char>,
    outcome: Result<ResponseSpec, ErrorSpec>,
) -> bool {
    match envelope(credentials, endpoint, body) {
        Err(error) => outcome == Err::<ResponseSpec, ErrorSpec>(error),
        Ok(sent) => exists|posted: Envelope, reply: Option<HttpReply>|
            posted@ == sent && call_ensures(transport, (&posted,), reply) && outcome
                == outcome_of(action, reply),
    }
}

/// Sends a request to `api_endpoint` and reads the response of the same
/// action out of the reply. Nothing is retried.
pub fn send_request<T>(
    transport: &T,
    credentials: &ApiCredentials,
    req_body: &RequestBodyType,
    api_endpoint: &str,
) -> (response: Result<ApiResponse, ApiError>) where T: Fn(&Envelope) -> Option<HttpReply>
    requires
        forall|posted: Envelope| call_requires(*transport, (&posted,)),
    ensures
        dispatched(
            *transport,
            credentials@,
            req_body.action(),
            api_endpoint@,
            req_body.body(),
            result_view(response),
        ),
        response matches Ok(answer) ==> answer@.action() == req_body.action(),
{
    let posted = match build_envelope(credentials, api_endpoint, req_body.to_json()) {
        Ok(posted) => posted,
        Err(error) => {
            return Err(error);
        },
    };
    match transport(&posted) {
        Some(reply) => {
            let response = read_reply(req_body.kind(), &reply);
            assert(result_view(response) == outcome_of(req_body.action(), Some(reply)));
            response
        },
        None => {
            assert(outcome_of(req_body.action(), None) == Err::<ResponseSpec, ErrorSpec>(
                ErrorSpec::Unreachable,
            ));
            Err(ApiError::Unreachable)
        },
    }
}

/// Whether a result passes on the error of an outcome, or stands for its
/// success.
pub open spec fn passes_on<R>(result: Result<R, ApiError>, outcome: Result<ResponseSpec, ErrorSpec>) -> bool {
    match outcome {
        Ok(_) => result is Ok,
        Err(error) => result matches Err(passed) && passed@ == error,
    }
}

/// Completes the current task of a case and assigns the next one to
/// `assign_next_to_name`.
pub fn send_complete_task<T>(
    transport: &T,
    credentials: &ApiCredentials,
    case_num: u32,
    assign_next_to_name: &str,
) -> (done: Result<(), ApiError>) where T: Fn(&Envelope) -> Option<HttpReply>
    requires
        forall|posted: Envelope| call_requires(*transport, (&posted,)),
    ensures
        exists|outcome: Result<ResponseSpec, ErrorSpec>|
            #[trigger] dispatched(
                *transport,
                credentials@,
                CaseAction::CompleteTask,
                CaseAction::CompleteTask.path(),
                completion_body(case_num, assign_next_to_name@),
                outcome,
            ) && passes_on(done, outcome),
{
    let request = RequestBodyType::CompleteTaskBody(
        CompleteTaskInput::new(case_num, assign_next_to_name),
    );
    let response = send_request(
        transport,
        credentials,
        &request,
        CaseAction::CompleteTask.endpoint(),
    );
    let ghost outcome = result_view(response);
    let done = match response {
        Ok(_) => Ok(()),
        Err(error) => Err(error),
    };
    assert(passes_on(done, outcome));
    done
}

/// Fetches the status of a case, laid out in lines for the operator.
pub fn get_case_status<T>(transport: &T, credentials: &ApiCredentials, case_num: u32) -> (shown: Result<
    Vec<StatusLine>,
    ApiError,
>) where T: Fn(&Envelope) -> Option<HttpReply>
    requires
        forall|posted: Envelope| call_requires(*transport, (&posted,)),
    ensures
        exists|outcome: Result<ResponseSpec, ErrorSpec>|
            #[trigger] dispatched(
                *transport,
                credentials@,
                CaseAction::GetCaseStatus,
                CaseAction::GetCaseStatus.path(),
                case_body(case_num),
                outcome,
            ) && passes_on(shown, outcome) && (shown matches Ok(lines) ==> outcome matches Ok(
                ResponseSpec::CaseStatusBody(status),
            ) && lines_view(lines@) == status_lines(case_num, status)),
{
    let request = RequestBodyType::CaseStatusBody(CaseStatusInput::new(case_num));
    let response = send_request(
        transport,
        credentials,
        &request,
        CaseAction::GetCaseStatus.endpoint(),
    );
    let ghost outcome = result_view(response);
    let shown = match response {
        Ok(ApiResponse::CaseStatusBody(status)) => Ok(case_status_lines(case_num, &status)),
        Ok(_) => unreached(),
        Err(error) => Err(error),
    };
    assert(passes_on(shown, outcome));
    shown
}

/// What the operator is told when a quote has been updated.
pub open spec fn quote_notice() -> Seq<char> {
    "Quote Updated and Attached to Case"@
}

/// Sets the quantity of the part on a case, which updates the quote.
pub fn update_case_quote<T>(
    transport: &T,
    credentials: &ApiCredentials,
    case_num: u32,
    new_quantity: Quantity,
) -> (told: Result<&'static str, ApiError>) where T: Fn(&Envelope) -> Option<HttpReply>
    requires
        forall|posted: Envelope| call_requires(*transport, (&posted,)),
    ensures
        exists|outcome: Result<ResponseSpec, ErrorSpec>|
            #[trigger] dispatched(
                *transport,
                credentials@,
                CaseAction::UpdateCaseQuote,
                CaseAction::UpdateCaseQuote.path(),
                quote_body(case_num, new_quantity@),
                outcome,
            ) && passes_on(told, outcome) && (told matches Ok(notice) ==> notice@
                == quote_notice()),
{
    let request = RequestBodyType::UpdateQuoteBody(UpdateQuoteInput::new(case_num, new_quantity));
    let response = send_request(
        transport,
        credentials,
        &request,
        CaseAction::UpdateCaseQuote.endpoint(),
    );
    let ghost outcome = result_view(response);
    let told = match response {
        Ok(_) => Ok("Quote Updated and Attached to Case"),
        Err(error) => Err(error),
    };
    assert(passes_on(told, outcome));
    told
}

/// What the operator is told when a comment has been added.
pub open spec fn comment_notice() -> Seq<char> {
    "Comment Added to Case"@
}

/// Adds a comment to a case.
pub fn add_case_comment<T>(transport: &T, credentials: &ApiCredentials, case_num: u32, comment: &str) -> (told:
    Result<&'static str, ApiError>) where T: Fn(&Envelope) -> Option<HttpReply>
    requires
        forall|posted: Envelope| call_requires(*transport, (&posted,)),
    ensures
        exists|outcome: Result<ResponseSpec, ErrorSpec>|
            #[trigger] dispatched(
                *transport,
                credentials@,
                CaseAction::AddCaseComment,
                CaseAction::AddCaseComment.path(),
                comment_body(case_num, comment@),
                outcome,
            ) && passes_on(told, outcome) && (told matches Ok(notice) ==> notice@
                == comment_notice()),
{
    let request = RequestBodyType::AddCaseCommentBody(AddCaseCommentInput::new(case_num, comment));
    let response = send_request(
        transport,
        credentials,
        &request,
        CaseAction::AddCaseComment.endpoint(),
    );
    let ghost outcome = result_view(response);
    let told = match response {
        Ok(_) => Ok("Comment Added to Case"),
        Err(error) => Err(error),
    };
    assert(passes_on(told, outcome));
    told
}

/// Fetches the last comment on a case: the comment, or a placeholder where
/// the case has none.
pub fn get_last_case_comment<T>(transport: &T, credentials: &ApiCredentials, case_num: u32) -> (shown:
    Result<String, ApiError>) where T: Fn(&Envelope) -> Option<HttpReply>
    requires
        forall|posted: Envelope| call_requires(*transport, (&posted,)),
    ensures
        exists|outcome: Result<ResponseSpec, ErrorSpec>|
            #[trigger] dispatched(
                *transport,
                credentials@,
                CaseAction::GetLastComment,
                CaseAction::GetLastComment.path(),
                case_body(case_num),
                outcome,
            ) && passes_on(shown, outcome) && (shown matches Ok(text) ==> outcome matches Ok(
                ResponseSpec::GetLastCommentBody(response),
            ) && text@ == comment_shown(response)),
{
    let request = RequestBodyType::GetLastCommentBody(GetLastCommentInput::new(case_num));
    let response = send_request(
        transport,
        credentials,
        &request,
        CaseAction::GetLastComment.endpoint(),
    );
    let ghost outcome = result_view(response);
    let shown = match response {
        Ok(ApiResponse::GetLastCommentBody(answer)) => Ok(last_comment_text(&answer)),
        Ok(_) => unreached(),
        Err(error) => Err(error),
    };
    assert(passes_on(shown, outcome));
    shown
}

} // verus!
