use std::cell::RefCell;

use omni::epicor::decode::decode_response;
use omni::epicor::envelope::{build_envelope, ApiCredentials, Envelope, Header};
use omni::epicor::error::{ApiError, ConfigFault, Setting};
use omni::epicor::report::{last_comment_text, StatusLine};
use omni::epicor::request::{
    AddCaseCommentInput, CaseAction, CaseStatusInput, CompleteTaskInput, GetLastCommentInput,
    RequestBodyType, UpdateQuoteInput,
};
use omni::epicor::response::{
    AddCaseCommentResponse, ApiResponse, CaseStatusResponse, CompleteTaskResponse,
    GetLastCommentResponse, UpdateQuoteResponse,
};
use omni::epicor::{
    add_case_comment, classify_status, get_case_status, get_last_case_comment, read_reply,
    send_complete_task, send_request, update_case_quote, HttpReply,
};
use omni::json::{JsonMember, JsonNumber, JsonValue};
use omni::quantity::Quantity;

fn credentials() -> ApiCredentials {
    ApiCredentials {
        api_key: "key-123".to_string(),
        basic_auth: "Basic dXNlcjpwYXNz".to_string(),
        base_url: "https://erp.example.com/live".to_string(),
    }
}

fn every_request() -> Vec<RequestBodyType> {
    vec![
        RequestBodyType::UpdateQuoteBody(UpdateQuoteInput::new(1, Quantity::parse("2").unwrap())),
        RequestBodyType::CompleteTaskBody(CompleteTaskInput::new(1, "Ann")),
        RequestBodyType::CaseStatusBody(CaseStatusInput::new(1)),
        RequestBodyType::AddCaseCommentBody(AddCaseCommentInput::new(1, "hello")),
        RequestBodyType::GetLastCommentBody(GetLastCommentInput::new(1)),
    ]
}

fn every_action() -> Vec<CaseAction> {
    vec![
        CaseAction::UpdateCaseQuote,
        CaseAction::CompleteTask,
        CaseAction::GetCaseStatus,
        CaseAction::AddCaseComment,
        CaseAction::GetLastComment,
    ]
}

fn reply(status: u16, body: &str) -> HttpReply {
    HttpReply { status, body: body.to_string() }
}

fn answering(status: u16, body: &'static str) -> impl Fn(&Envelope) -> Option<HttpReply> {
    move |_: &Envelope| Some(reply(status, body))
}

const FULL_STATUS: &str = "{\"Error\":false,\"Message\":\"\",\"ProjectID\":\"P-77\",\"CaseDescription\":\"Fix the press\",\"PartNum\":\"PN-1\",\"Qty\":2.5,\"UnitPrice\":19.99,\"CaseOwner\":\"Ann\",\"InternalContact\":\"Bob\",\"CaseContact\":\"Cy\",\"CurrentTask\":\"Quote\",\"CurrentTaskAssignedTo\":\"Dee\",\"RequestedDelivery\":\"2024-01-02\",\"StartDate\":\"2023-12-01\",\"ExpectedDeliveryDate\":\"2024-02-03\",\"Developer\":\"Eve\",\"WBSPhaseID\":\"PH1\",\"WBSPhaseOp\":10,\"EstimatedHours\":40,\"HoursScheduled\":12.25,\"HoursApplied\":3.5,\"BilledPercent\":0}";

fn full_status() -> CaseStatusResponse {
    CaseStatusResponse {
        error: false,
        message: String::new(),
        project_id: "P-77".to_string(),
        case_description: "Fix the press".to_string(),
        part_num: "PN-1".to_string(),
        qty: "2.5".to_string(),
        unit_price: "19.99".to_string(),
        case_owner: "Ann".to_string(),
        internal_contact: "Bob".to_string(),
        case_contact: "Cy".to_string(),
        current_task: "Quote".to_string(),
        current_task_assigned_to: "Dee".to_string(),
        requested_delivery: "2024-01-02".to_string(),
        start_date: "2023-12-01".to_string(),
        expected_delivery_date: "2024-02-03".to_string(),
        developer: "Eve".to_string(),
        wbs_phase_id: "PH1".to_string(),
        wbs_phase_op: 10,
        estimated_hours: "40".to_string(),
        hours_scheduled: "12.25".to_string(),
        hours_applied: "3.5".to_string(),
        billed_percent: "0".to_string(),
    }
}

#[test]
fn not_found_means_not_published_for_every_request() {
    let transport = answering(404, "{\"Error\":false,\"Message\":\"\"}");
    for request in every_request() {
        let endpoint = request.kind().endpoint();
        assert_eq!(
            send_request(&transport, &credentials(), &request, endpoint),
            Err(ApiError::EndpointNotPublished)
        );
    }
    for action in every_action() {
        assert_eq!(read_reply(action, &reply(404, "")), Err(ApiError::EndpointNotPublished));
        assert_eq!(
            read_reply(action, &reply(404, "{\"Error\":true,\"Message\":\"x\"}")),
            Err(ApiError::EndpointNotPublished)
        );
    }
}

#[test]
fn a_raised_flag_on_a_status_request_is_the_remote_error() {
    let transport = answering(200, "{\"Error\":true,\"Message\":\"bad case\"}");
    let request = RequestBodyType::CaseStatusBody(CaseStatusInput::new(7));
    assert_eq!(
        send_request(&transport, &credentials(), &request, "efx/100/Omni/GetCaseStatus"),
        Err(ApiError::RemoteApplication("bad case".to_string()))
    );
    assert_eq!(
        get_case_status(&transport, &credentials(), 7),
        Err(ApiError::RemoteApplication("bad case".to_string()))
    );
}

#[test]
fn a_raised_flag_is_the_remote_error_for_every_action() {
    for action in every_action() {
        assert_eq!(
            read_reply(action, &reply(200, "{\"Error\":true,\"Message\":\"bad case\"}")),
            Err(ApiError::RemoteApplication("bad case".to_string()))
        );
    }
}

#[test]
fn a_raised_flag_without_a_message_carries_an_empty_one() {
    for action in every_action() {
        assert_eq!(
            read_reply(action, &reply(200, "{\"Error\":true}")),
            Err(ApiError::RemoteApplication(String::new()))
        );
        assert_eq!(
            read_reply(action, &reply(200, "{\"Error\":true,\"Message\":null}")),
            Err(ApiError::RemoteApplication(String::new()))
        );
    }
}

#[test]
fn a_full_status_is_decoded_field_by_field() {
    let transport = answering(200, FULL_STATUS);
    let request = RequestBodyType::CaseStatusBody(CaseStatusInput::new(7));
    assert_eq!(
        send_request(&transport, &credentials(), &request, "efx/100/Omni/GetCaseStatus"),
        Ok(ApiResponse::CaseStatusBody(full_status()))
    );
}

#[test]
fn a_status_lacking_one_field_is_a_decode_error() {
    let names = vec![
        "ProjectID", "CaseDescription", "PartNum", "Qty", "UnitPrice", "CaseOwner",
        "InternalContact", "CaseContact", "CurrentTask", "CurrentTaskAssignedTo",
        "RequestedDelivery", "StartDate", "ExpectedDeliveryDate", "Developer", "WBSPhaseID",
        "WBSPhaseOp", "EstimatedHours", "HoursScheduled", "HoursApplied", "BilledPercent",
    ];
    assert_eq!(names.len(), 20);
    for name in names {
        let renamed = FULL_STATUS.replace(&format!("\"{}\":", name), "\"Other\":");
        assert_ne!(renamed, FULL_STATUS);
        assert_eq!(
            read_reply(CaseAction::GetCaseStatus, &reply(200, &renamed)),
            Err(ApiError::Decode)
        );
    }
}

#[test]
fn a_status_field_of_the_wrong_kind_is_a_decode_error() {
    let text_as_number = FULL_STATUS.replace("\"ProjectID\":\"P-77\"", "\"ProjectID\":77");
    assert_eq!(
        read_reply(CaseAction::GetCaseStatus, &reply(200, &text_as_number)),
        Err(ApiError::Decode)
    );
    let number_as_text = FULL_STATUS.replace("\"Qty\":2.5", "\"Qty\":\"2.5\"");
    assert_eq!(
        read_reply(CaseAction::GetCaseStatus, &reply(200, &number_as_text)),
        Err(ApiError::Decode)
    );
    let fraction = FULL_STATUS.replace("\"WBSPhaseOp\":10", "\"WBSPhaseOp\":10.5");
    assert_eq!(
        read_reply(CaseAction::GetCaseStatus, &reply(200, &fraction)),
        Err(ApiError::Decode)
    );
    let too_large = FULL_STATUS.replace("\"WBSPhaseOp\":10", "\"WBSPhaseOp\":2147483648");
    assert_eq!(
        read_reply(CaseAction::GetCaseStatus, &reply(200, &too_large)),
        Err(ApiError::Decode)
    );
    let null_text = FULL_STATUS.replace("\"Developer\":\"Eve\"", "\"Developer\":null");
    assert_eq!(
        read_reply(CaseAction::GetCaseStatus, &reply(200, &null_text)),
        Err(ApiError::Decode)
    );
}

#[test]
fn the_operation_number_spans_the_32_bit_range() {
    let lowest = FULL_STATUS.replace("\"WBSPhaseOp\":10", "\"WBSPhaseOp\":-2147483648");
    let mut expected = full_status();
    expected.wbs_phase_op = i32::MIN;
    assert_eq!(
        read_reply(CaseAction::GetCaseStatus, &reply(200, &lowest)),
        Ok(ApiResponse::CaseStatusBody(expected))
    );
    let highest = FULL_STATUS.replace("\"WBSPhaseOp\":10", "\"WBSPhaseOp\":2147483647");
    let mut expected = full_status();
    expected.wbs_phase_op = i32::MAX;
    assert_eq!(
        read_reply(CaseAction::GetCaseStatus, &reply(200, &highest)),
        Ok(ApiResponse::CaseStatusBody(expected))
    );
    let below = FULL_STATUS.replace("\"WBSPhaseOp\":10", "\"WBSPhaseOp\":-2147483649");
    assert_eq!(read_reply(CaseAction::GetCaseStatus, &reply(200, &below)), Err(ApiError::Decode));
}

#[test]
fn members_under_other_names_are_passed_over() {
    let more = FULL_STATUS.replace("{\"Error\"", "{\"Extra\":[1,{\"a\":2}],\"Error\"");
    assert_eq!(
        read_reply(CaseAction::GetCaseStatus, &reply(200, &more)),
        Ok(ApiResponse::CaseStatusBody(full_status()))
    );
}

#[test]
fn an_update_of_the_quote_sends_exactly_its_body() {
    let seen = RefCell::new(Vec::new());
    let transport = |posted: &Envelope| {
        seen.borrow_mut().push(posted.clone());
        if posted.body == "{\"CaseNum\":12345,\"Qty\":7.5}" {
            Some(reply(200, "{\"Error\":false,\"Message\":\"\"}"))
        } else {
            Some(reply(400, ""))
        }
    };
    assert_eq!(
        update_case_quote(&transport, &credentials(), 12345, Quantity::parse("7.5").unwrap()),
        Ok("Quote Updated and Attached to Case")
    );
    assert_eq!(
        update_case_quote(&transport, &credentials(), 12345, Quantity::parse("7.50").unwrap()),
        Err(ApiError::Transport(400))
    );
    assert_eq!(
        update_case_quote(&transport, &credentials(), 12346, Quantity::parse("7.5").unwrap()),
        Err(ApiError::Transport(400))
    );
    let seen = seen.borrow();
    assert_eq!(seen.len(), 3);
    assert_eq!(seen[0].url, "https://erp.example.com/live/api/v2/efx/100/Omni/UpdateCaseQuote");
    assert_eq!(seen[0].body, "{\"CaseNum\":12345,\"Qty\":7.5}");
    assert_eq!(seen[1].body, "{\"CaseNum\":12345,\"Qty\":7.50}");
    assert_eq!(seen[2].body, "{\"CaseNum\":12346,\"Qty\":7.5}");
}

#[test]
fn a_last_comment_left_out_shows_the_placeholder() {
    let transport = answering(200, "{\"Error\":false,\"Message\":\"ok\"}");
    assert_eq!(
        get_last_case_comment(&transport, &credentials(), 5),
        Ok("No comments".to_string())
    );
    let transport = answering(200, "{\"Error\":false,\"Comment\":null}");
    assert_eq!(
        get_last_case_comment(&transport, &credentials(), 5),
        Ok("No comments".to_string())
    );
    let absent = GetLastCommentResponse { error: false, message: None, comment: None };
    assert_eq!(last_comment_text(&absent), "No comments");
}

#[test]
fn a_last_comment_is_shown_as_it_is() {
    let transport = answering(200, "{\"Error\":false,\"Message\":\"ok\",\"Comment\":\"Called the customer\"}");
    assert_eq!(
        get_last_case_comment(&transport, &credentials(), 5),
        Ok("Called the customer".to_string())
    );
    assert_eq!(
        read_reply(
            CaseAction::GetLastComment,
            &reply(200, "{\"Error\":false,\"Message\":\"ok\",\"Comment\":\"\"}")
        ),
        Ok(ApiResponse::GetLastCommentBody(GetLastCommentResponse {
            error: false,
            message: Some("ok".to_string()),
            comment: Some(String::new()),
        }))
    );
    assert_eq!(
        read_reply(CaseAction::GetLastComment, &reply(200, "{\"Error\":false,\"Comment\":3}")),
        Err(ApiError::Decode)
    );
}

#[test]
fn each_status_is_sorted_by_its_number() {
    assert_eq!(classify_status(200), Ok(()));
    assert_eq!(classify_status(204), Ok(()));
    assert_eq!(classify_status(299), Ok(()));
    assert_eq!(classify_status(199), Err(ApiError::Transport(199)));
    assert_eq!(classify_status(300), Err(ApiError::Transport(300)));
    assert_eq!(classify_status(404), Err(ApiError::EndpointNotPublished));
    assert_eq!(classify_status(403), Err(ApiError::Transport(403)));
    assert_eq!(classify_status(405), Err(ApiError::Transport(405)));
    assert_eq!(classify_status(500), Err(ApiError::Transport(500)));
    assert_eq!(classify_status(0), Err(ApiError::Transport(0)));
    assert_eq!(classify_status(65535), Err(ApiError::Transport(65535)));
}

#[test]
fn another_failure_carries_its_status_whatever_the_body() {
    for action in every_action() {
        assert_eq!(
            read_reply(action, &reply(500, "{\"Error\":false,\"Message\":\"\"}")),
            Err(ApiError::Transport(500))
        );
        assert_eq!(read_reply(action, &reply(301, "moved")), Err(ApiError::Transport(301)));
    }
}

#[test]
fn a_body_that_is_no_object_is_a_decode_error() {
    for action in every_action() {
        assert_eq!(read_reply(action, &reply(200, "")), Err(ApiError::Decode));
        assert_eq!(read_reply(action, &reply(200, "not json")), Err(ApiError::Decode));
        assert_eq!(read_reply(action, &reply(200, "[true,\"m\"]")), Err(ApiError::Decode));
        assert_eq!(read_reply(action, &reply(200, "{\"Error\":false")), Err(ApiError::Decode));
        assert_eq!(read_reply(action, &reply(200, "{}")), Err(ApiError::Decode));
    }
}

#[test]
fn an_envelope_of_the_wrong_kind_is_a_decode_error() {
    for action in every_action() {
        assert_eq!(
            read_reply(action, &reply(200, "{\"Error\":\"false\",\"Message\":\"\"}")),
            Err(ApiError::Decode)
        );
        assert_eq!(
            read_reply(action, &reply(200, "{\"Error\":0,\"Message\":\"\"}")),
            Err(ApiError::Decode)
        );
        assert_eq!(
            read_reply(action, &reply(200, "{\"Error\":false,\"Message\":5}")),
            Err(ApiError::Decode)
        );
        assert_eq!(
            read_reply(action, &reply(200, "{\"Error\":true,\"Message\":[\"x\"]}")),
            Err(ApiError::Decode)
        );
        assert_eq!(
            read_reply(action, &reply(200, "{\"error\":false,\"Message\":\"\"}")),
            Err(ApiError::Decode)
        );
    }
}

#[test]
fn the_plain_envelopes_decode_with_and_without_a_message() {
    assert_eq!(
        read_reply(CaseAction::UpdateCaseQuote, &reply(200, "{\"Error\":false,\"Message\":\"done\"}")),
        Ok(ApiResponse::UpdateQuoteBody(UpdateQuoteResponse {
            error: false,
            message: "done".to_string(),
        }))
    );
    assert_eq!(
        read_reply(CaseAction::UpdateCaseQuote, &reply(201, "{\"Error\":false}")),
        Ok(ApiResponse::UpdateQuoteBody(UpdateQuoteResponse {
            error: false,
            message: String::new(),
        }))
    );
    assert_eq!(
        read_reply(CaseAction::AddCaseComment, &reply(200, "{\"Error\":false,\"Message\":\"done\"}")),
        Ok(ApiResponse::AddCaseCommentBody(AddCaseCommentResponse {
            error: false,
            message: Some("done".to_string()),
        }))
    );
    assert_eq!(
        read_reply(CaseAction::AddCaseComment, &reply(200, "{\"Error\":false,\"Message\":null}")),
        Ok(ApiResponse::AddCaseCommentBody(AddCaseCommentResponse { error: false, message: None }))
    );
}

#[test]
fn a_completion_holds_its_four_flags() {
    let body = "{\"Error\":false,\"Message\":\"\",\"HasActiveTask\":true,\"AuthorizedToCompleteTask\":true,\"MultipleSalesRepMatches\":false,\"NoSalesRepMatch\":true}";
    assert_eq!(
        read_reply(CaseAction::CompleteTask, &reply(200, body)),
        Ok(ApiResponse::CompleteTaskBody(CompleteTaskResponse {
            error: false,
            message: String::new(),
            has_active_task: true,
            authorized_to_complete_task: true,
            multiple_sales_rep_matches: false,
            no_sales_rep_match: true,
        }))
    );
    for name in ["HasActiveTask", "AuthorizedToCompleteTask", "MultipleSalesRepMatches", "NoSalesRepMatch"] {
        let renamed = body.replace(name, "Other");
        assert_eq!(
            read_reply(CaseAction::CompleteTask, &reply(200, &renamed)),
            Err(ApiError::Decode)
        );
    }
    let wrong = body.replace("\"NoSalesRepMatch\":true", "\"NoSalesRepMatch\":1");
    assert_eq!(read_reply(CaseAction::CompleteTask, &reply(200, &wrong)), Err(ApiError::Decode));
}

#[test]
fn the_response_is_of_the_action_that_was_asked() {
    let bodies = vec![
        (CaseAction::UpdateCaseQuote, "{\"Error\":false,\"Message\":\"\"}".to_string()),
        (
            CaseAction::CompleteTask,
            "{\"Error\":false,\"HasActiveTask\":true,\"AuthorizedToCompleteTask\":true,\"MultipleSalesRepMatches\":false,\"NoSalesRepMatch\":false}".to_string(),
        ),
        (CaseAction::GetCaseStatus, FULL_STATUS.to_string()),
        (CaseAction::AddCaseComment, "{\"Error\":false}".to_string()),
        (CaseAction::GetLastComment, "{\"Error\":false,\"Comment\":\"c\"}".to_string()),
    ];
    for (action, body) in bodies {
        let response = read_reply(action, &reply(200, &body)).unwrap();
        assert_eq!(response.kind(), action);
    }
    let status = read_reply(CaseAction::UpdateCaseQuote, &reply(200, FULL_STATUS)).unwrap();
    assert_eq!(status.kind(), CaseAction::UpdateCaseQuote);
}

#[test]
fn no_reply_is_its_own_error() {
    let silent = |_: &Envelope| -> Option<HttpReply> { None };
    for request in every_request() {
        assert_eq!(
            send_request(&silent, &credentials(), &request, "x"),
            Err(ApiError::Unreachable)
        );
    }
    assert_eq!(send_complete_task(&silent, &credentials(), 1, "Ann"), Err(ApiError::Unreachable));
}

#[test]
fn a_key_that_no_header_can_carry_stops_the_call_before_it_is_sent() {
    let posts = RefCell::new(0);
    let transport = |_: &Envelope| {
        *posts.borrow_mut() += 1;
        Some(reply(200, "{\"Error\":false}"))
    };
    let mut bad_key = credentials();
    bad_key.api_key = "line\nbreak".to_string();
    assert_eq!(
        add_case_comment(&transport, &bad_key, 1, "c"),
        Err(ApiError::Configuration(ConfigFault::Unencodable(Setting::ApiKey)))
    );
    let mut bad_auth = credentials();
    bad_auth.basic_auth = "del\u{7f}".to_string();
    assert_eq!(
        add_case_comment(&transport, &bad_auth, 1, "c"),
        Err(ApiError::Configuration(ConfigFault::Unencodable(Setting::BasicAuth)))
    );
    let mut both = credentials();
    both.api_key = "\u{0}".to_string();
    both.basic_auth = "\r".to_string();
    assert_eq!(
        add_case_comment(&transport, &both, 1, "c"),
        Err(ApiError::Configuration(ConfigFault::Unencodable(Setting::ApiKey)))
    );
    assert_eq!(*posts.borrow(), 0);
}

#[test]
fn tabs_and_text_beyond_ascii_pass_as_header_values() {
    let mut odd = credentials();
    odd.api_key = "a\tb".to_string();
    odd.basic_auth = "Gr\u{fc}\u{df}e \u{1f511}".to_string();
    let built = build_envelope(&odd, "p", "{}".to_string()).unwrap();
    assert_eq!(built.headers[0].value, "a\tb");
    assert_eq!(built.headers[1].value, "Gr\u{fc}\u{df}e \u{1f511}");
}

#[test]
fn the_envelope_has_the_url_the_three_headers_and_the_body() {
    let built = build_envelope(&credentials(), "efx/100/Omni/GetCaseStatus", "{\"CaseNum\":1}".to_string());
    assert_eq!(
        built,
        Ok(Envelope {
            url: "https://erp.example.com/live/api/v2/efx/100/Omni/GetCaseStatus".to_string(),
            headers: vec![
                Header { name: "X-API-Key".to_string(), value: "key-123".to_string() },
                Header { name: "Authorization".to_string(), value: "Basic dXNlcjpwYXNz".to_string() },
                Header {
                    name: "Content-Type".to_string(),
                    value: "application/json; charset=utf-8".to_string(),
                },
            ],
            body: "{\"CaseNum\":1}".to_string(),
        })
    );
}

#[test]
fn the_library_and_the_header_type_agree_on_every_single_byte() {
    for byte in 0u8..128 {
        let text = String::from_utf8(vec![byte]).unwrap();
        let mut probe = credentials();
        probe.api_key = text.clone();
        let accepted = build_envelope(&probe, "p", String::new()).is_ok();
        assert_eq!(accepted, byte == 9 || (byte >= 32 && byte != 127));
        assert_eq!(accepted, reqwest::header::HeaderValue::from_str(&text).is_ok());
    }
}

#[test]
fn credentials_need_all_three_values() {
    let key = || Some("k".to_string());
    let auth = || Some("a".to_string());
    let url = || Some("u".to_string());
    assert_eq!(
        ApiCredentials::from_environment(key(), auth(), url()),
        Ok(ApiCredentials {
            api_key: "k".to_string(),
            basic_auth: "a".to_string(),
            base_url: "u".to_string(),
        })
    );
    assert_eq!(
        ApiCredentials::from_environment(None, auth(), url()),
        Err(ApiError::Configuration(ConfigFault::Missing(Setting::ApiKey)))
    );
    assert_eq!(
        ApiCredentials::from_environment(key(), None, url()),
        Err(ApiError::Configuration(ConfigFault::Missing(Setting::BasicAuth)))
    );
    assert_eq!(
        ApiCredentials::from_environment(key(), auth(), None),
        Err(ApiError::Configuration(ConfigFault::Missing(Setting::BaseUrl)))
    );
    assert_eq!(
        ApiCredentials::from_environment(None, None, None),
        Err(ApiError::Configuration(ConfigFault::Missing(Setting::ApiKey)))
    );
    assert_eq!(
        ApiCredentials::from_environment(key(), None, None),
        Err(ApiError::Configuration(ConfigFault::Missing(Setting::BasicAuth)))
    );
}

#[test]
fn the_facade_posts_to_the_endpoint_of_its_action() {
    let seen = RefCell::new(Vec::new());
    let transport = |posted: &Envelope| {
        seen.borrow_mut().push((posted.url.clone(), posted.body.clone()));
        Some(reply(200, "{\"Error\":true,\"Message\":\"no\"}"))
    };
    let refused = ApiError::RemoteApplication("no".to_string());
    assert_eq!(send_complete_task(&transport, &credentials(), 42, "Ann \"A\" Lee"), Err(refused.clone()));
    assert_eq!(get_case_status(&transport, &credentials(), 43), Err(refused.clone()));
    assert_eq!(
        update_case_quote(&transport, &credentials(), 44, Quantity::parse("-1e3").unwrap()),
        Err(refused.clone())
    );
    assert_eq!(add_case_comment(&transport, &credentials(), 45, "line\nbreak"), Err(refused.clone()));
    assert_eq!(get_last_case_comment(&transport, &credentials(), 46), Err(refused));
    let root = "https://erp.example.com/live/api/v2/efx/100/Omni/";
    assert_eq!(
        *seen.borrow(),
        vec![
            (
                format!("{}CompleteTask", root),
                "{\"CaseNum\":42,\"AssignNextToName\":\"Ann \\\"A\\\" Lee\"}".to_string()
            ),
            (format!("{}GetCaseStatus", root), "{\"CaseNum\":43}".to_string()),
            (format!("{}UpdateCaseQuote", root), "{\"CaseNum\":44,\"Qty\":-1e3}".to_string()),
            (
                format!("{}AddCaseComment", root),
                "{\"CaseNum\":45,\"Comment\":\"line\\nbreak\"}".to_string()
            ),
            (format!("{}GetLastComment", root), "{\"CaseNum\":46}".to_string()),
        ]
    );
}

#[test]
fn the_facade_reports_success() {
    let completion = answering(
        200,
        "{\"Error\":false,\"Message\":\"\",\"HasActiveTask\":true,\"AuthorizedToCompleteTask\":true,\"MultipleSalesRepMatches\":false,\"NoSalesRepMatch\":false}",
    );
    assert_eq!(send_complete_task(&completion, &credentials(), 1, "Ann"), Ok(()));
    let plain = answering(200, "{\"Error\":false}");
    assert_eq!(add_case_comment(&plain, &credentials(), 1, "c"), Ok("Comment Added to Case"));
    assert_eq!(send_complete_task(&plain, &credentials(), 1, "Ann"), Err(ApiError::Decode));
    let status = answering(200, FULL_STATUS);
    let lines = get_case_status(&status, &credentials(), 9001).unwrap();
    assert_eq!(lines.len(), 21);
    assert_eq!(
        lines[0],
        StatusLine { label: "Case Number:".to_string(), value: "9001".to_string() }
    );
}

#[test]
fn members_are_read_as_given_when_decoding_by_hand() {
    let members = vec![
        JsonMember { name: "Error".to_string(), value: JsonValue::Bool(false) },
        JsonMember { name: "Comment".to_string(), value: JsonValue::Text("first".to_string()) },
        JsonMember { name: "Comment".to_string(), value: JsonValue::Text("second".to_string()) },
    ];
    assert_eq!(
        decode_response(CaseAction::GetLastComment, &members),
        Ok(ApiResponse::GetLastCommentBody(GetLastCommentResponse {
            error: false,
            message: None,
            comment: Some("first".to_string()),
        }))
    );
    let number = vec![
        JsonMember { name: "Error".to_string(), value: JsonValue::Bool(false) },
        JsonMember {
            name: "Message".to_string(),
            value: JsonValue::Number(JsonNumber { literal: "1".to_string(), whole: Some(1) }),
        },
    ];
    assert_eq!(decode_response(CaseAction::AddCaseComment, &number), Err(ApiError::Decode));
    assert_eq!(decode_response(CaseAction::AddCaseComment, &Vec::new()), Err(ApiError::Decode));
}

#[test]
fn every_api_error_has_its_text() {
    assert_eq!(
        ApiError::Configuration(ConfigFault::Missing(Setting::ApiKey)).message(),
        "EPICOR_API_KEY must be set"
    );
    assert_eq!(
        ApiError::Configuration(ConfigFault::Missing(Setting::BasicAuth)).message(),
        "EPICOR_BASIC_AUTH must be set"
    );
    assert_eq!(
        ApiError::Configuration(ConfigFault::Missing(Setting::BaseUrl)).message(),
        "EPICOR_BASE_URL must be set"
    );
    assert_eq!(
        ApiError::Configuration(ConfigFault::Unencodable(Setting::ApiKey)).message(),
        "EPICOR_API_KEY cannot be sent as a header value"
    );
    assert_eq!(ApiError::Unreachable.message(), "Error: the service gave no reply");
    assert_eq!(
        ApiError::EndpointNotPublished.message(),
        "Error: The Omni function library is not published in Epicor. Please publish the function library and try again."
    );
    assert_eq!(ApiError::Transport(503).message(), "Error: 503");
    assert_eq!(ApiError::Decode.message(), "Error: the response is not of the expected shape");
    assert_eq!(ApiError::RemoteApplication("bad case".to_string()).message(), "Error: bad case");
    assert_eq!(ApiError::RemoteApplication(String::new()).message(), "Error: ");
}
