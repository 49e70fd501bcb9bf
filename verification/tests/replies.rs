use oxyde_cloud::error::{ClientError, DecodeError, RequestError};
use oxyde_cloud::net::{
    is_success, receive, AppMeta, CheckAvailabilityResponse, DeploymentStatus, FromJson,
    LogResponse, LoginResponse, Reply, SuccessResponse, Team,
};

fn response(status: u16, body: &str) -> Reply {
    Reply::Response { status, body: body.to_string() }
}

fn request_error(status: u16, body: &str) -> ClientError {
    ClientError::Request(RequestError { status, body: body.to_string() })
}

fn decode_error(body: &str) -> ClientError {
    ClientError::Decode(DecodeError { body: body.to_string() })
}

fn team(slug: &str, name: &str) -> Team {
    Team { slug: slug.to_string(), name: name.to_string() }
}

#[test]
fn body_of_a_successful_reply() {
    assert_eq!(response(200, "x").into_body(), Ok("x".to_string()));
    assert_eq!(response(204, "").into_body(), Ok("".to_string()));
    assert_eq!(response(299, "y").into_body(), Ok("y".to_string()));
}

#[test]
fn status_outside_2xx_is_a_request_error() {
    for status in [0, 100, 199, 300, 304, 400, 404, 500, 503, 599, 600, u16::MAX] {
        assert_eq!(
            response(status, "{\"success\":true}").into_body(),
            Err(request_error(status, "{\"success\":true}"))
        );
    }
}

#[test]
fn no_reply_is_a_transport_error() {
    let reply = Reply::Failure { message: "connection refused".to_string() };
    assert_eq!(
        reply.into_body(),
        Err(ClientError::Transport { message: "connection refused".to_string() })
    );
    let reply = Reply::Failure { message: "timed out".to_string() };
    assert_eq!(
        receive::<SuccessResponse>(reply),
        Err(ClientError::Transport { message: "timed out".to_string() })
    );
}

#[test]
fn success_reply_is_decoded() {
    assert_eq!(
        receive::<SuccessResponse>(response(200, r#"{"success":true}"#)),
        Ok(SuccessResponse { success: true })
    );
    assert_eq!(
        receive::<SuccessResponse>(response(201, r#"{ "success" : false, "more": [1, 2] }"#)),
        Ok(SuccessResponse { success: false })
    );
}

#[test]
fn error_body_is_not_parsed_as_a_success_payload() {
    assert_eq!(
        receive::<SuccessResponse>(response(500, r#"{"success":true}"#)),
        Err(request_error(500, r#"{"success":true}"#))
    );
    assert_eq!(
        receive::<SuccessResponse>(response(401, "Unauthorized")),
        Err(request_error(401, "Unauthorized"))
    );
}

#[test]
fn malformed_success_body_is_a_decode_error() {
    for body in [
        "",
        "not json",
        "{",
        r#"{"success":"yes"}"#,
        r#"{"success":1}"#,
        r#"{"succes":true}"#,
        r#"[true]"#,
        "true",
        "null",
        r#"{"success":true} trailing"#,
    ] {
        assert_eq!(receive::<SuccessResponse>(response(200, body)), Err(decode_error(body)));
    }
}

#[test]
fn availability_reply_is_decoded() {
    assert_eq!(
        receive::<CheckAvailabilityResponse>(response(200, r#"{"available":true}"#)),
        Ok(CheckAvailabilityResponse { available: true })
    );
    assert_eq!(
        receive::<CheckAvailabilityResponse>(response(200, r#"{"available":false}"#)),
        Ok(CheckAvailabilityResponse { available: false })
    );
    assert_eq!(
        receive::<CheckAvailabilityResponse>(response(200, r#"{"success":true}"#)),
        Err(decode_error(r#"{"success":true}"#))
    );
}

#[test]
fn login_reply_is_decoded() {
    assert_eq!(
        receive::<LoginResponse>(response(200, r#"{"username":"ferris \"the\" crab"}"#)),
        Ok(LoginResponse { username: "ferris \"the\" crab".to_string() })
    );
    assert_eq!(
        receive::<LoginResponse>(response(200, r#"{"username":7}"#)),
        Err(decode_error(r#"{"username":7}"#))
    );
}

#[test]
fn log_reply_is_decoded() {
    assert_eq!(
        receive::<LogResponse>(response(200, r#"{"log":"line 1\nline 2\n"}"#)),
        Ok(LogResponse { log: "line 1\nline 2\n".to_string() })
    );
    assert_eq!(receive::<LogResponse>(response(200, "{}")), Err(decode_error("{}")));
}

#[test]
fn teams_reply_is_decoded() {
    assert_eq!(receive::<Vec<Team>>(response(200, "[]")), Ok(vec![]));
    assert_eq!(
        receive::<Vec<Team>>(response(200, r#"[{"slug":"ateam","name":"A Team"}]"#)),
        Ok(vec![team("ateam", "A Team")])
    );
    let body = r#"[
        {"slug":"t0","name":"Zero"}, {"slug":"t1","name":"One"}, {"slug":"t2","name":"Two"},
        {"slug":"t3","name":"Three"}, {"slug":"t4","name":"Four"}, {"slug":"t5","name":"Five"},
        {"slug":"t6","name":"Six"}, {"slug":"t7","name":"Seven"}, {"slug":"t8","name":"Eight"},
        {"slug":"t9","name":"Nine"}, {"name":"Ten","slug":"t10","id":10}
    ]"#;
    let teams = receive::<Vec<Team>>(response(200, body)).unwrap();
    assert_eq!(teams.len(), 11);
    assert_eq!(teams[0], team("t0", "Zero"));
    assert_eq!(teams[9], team("t9", "Nine"));
    assert_eq!(teams[10], team("t10", "Ten"));
}

#[test]
fn teams_reply_with_a_broken_team_is_a_decode_error() {
    for body in [
        r#"{"slug":"a","name":"A"}"#,
        r#"[{"slug":"a"}]"#,
        r#"[{"slug":"a","name":"A"},{"slug":"b","name":null}]"#,
        r#"[["a","A"]]"#,
        "7",
    ] {
        assert_eq!(receive::<Vec<Team>>(response(200, body)), Err(decode_error(body)));
    }
}

#[test]
fn shapes_are_made_from_their_fields() {
    assert_eq!(SuccessResponse::from_field(Some(true)), Some(SuccessResponse { success: true }));
    assert_eq!(SuccessResponse::from_field(Some(false)), Some(SuccessResponse { success: false }));
    assert_eq!(SuccessResponse::from_field(None), None);
    assert_eq!(
        CheckAvailabilityResponse::from_field(Some(true)),
        Some(CheckAvailabilityResponse { available: true })
    );
    assert_eq!(CheckAvailabilityResponse::from_field(None), None);
    assert_eq!(
        LoginResponse::from_field(Some("u".to_string())),
        Some(LoginResponse { username: "u".to_string() })
    );
    assert_eq!(LoginResponse::from_field(None), None);
    assert_eq!(
        LogResponse::from_field(Some("l".to_string())),
        Some(LogResponse { log: "l".to_string() })
    );
    assert_eq!(LogResponse::from_field(None), None);
    assert_eq!(
        Team::from_fields(Some("s".to_string()), Some("n".to_string())),
        Some(team("s", "n"))
    );
    assert_eq!(Team::from_fields(None, Some("n".to_string())), None);
    assert_eq!(Team::from_fields(Some("s".to_string()), None), None);
    assert_eq!(Team::from_fields(None, None), None);
}

#[test]
fn from_json_reads_without_a_reply() {
    assert_eq!(
        SuccessResponse::from_json(r#"{"success":true}"#),
        Some(SuccessResponse { success: true })
    );
    assert_eq!(SuccessResponse::from_json("success"), None);
    assert_eq!(<Vec<Team>>::from_json("[]"), Some(vec![]));
}

#[test]
fn default_success_response_tells_success() {
    assert_eq!(SuccessResponse::default(), SuccessResponse { success: true });
}

#[test]
fn app_meta_header() {
    assert_eq!(AppMeta::name(), "app-meta");
    let meta = AppMeta { app_slug: "the-app".to_string() };
    assert_eq!(meta.to_string_value(), "the-app");
    assert_eq!(
        AppMeta::decode(&vec!["the-app".to_string(), "other".to_string()]),
        Some(AppMeta { app_slug: "the-app".to_string() })
    );
    assert_eq!(AppMeta::decode(&vec![]), None);
}

#[test]
fn deployment_status_words() {
    assert_eq!(DeploymentStatus::Pending.as_str(), "pending");
    assert_eq!(DeploymentStatus::Success.as_str(), "success");
    assert_eq!(DeploymentStatus::Failure.as_str(), "failure");
}

#[test]
fn client_errors_have_messages() {
    assert_eq!(
        ClientError::Transport { message: "connection reset".to_string() }.message(),
        "Failed to send HTTP request: connection reset"
    );
    assert_eq!(
        request_error(404, "no such app").message(),
        "HTTP request failed with status 404: no such app"
    );
    assert_eq!(decode_error("<html>").message(), "Failed to parse response JSON: <html>");
    assert_eq!(ClientError::Encode.message(), "Failed to serialize request body to JSON");
}

#[test]
fn app_meta_is_written_where_the_slug_can_be_sent() {
    let mut values = vec!["first".to_string()];
    assert!(AppMeta { app_slug: "the-app".to_string() }.encode(&mut values));
    assert_eq!(values, vec!["first".to_string(), "the-app".to_string()]);
    assert!(!AppMeta { app_slug: "the\napp".to_string() }.encode(&mut values));
    assert_eq!(values, vec!["first".to_string(), "the-app".to_string()]);
}

#[test]
fn success_is_the_2xx_range() {
    assert!(!is_success(199));
    assert!(is_success(200));
    assert!(is_success(299));
    assert!(!is_success(300));
    assert!(!is_success(0));
    assert!(!is_success(u16::MAX));
}
