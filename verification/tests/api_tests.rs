use netstatus_api::api::{
    holds_colon, probe_reply, probe_result, rate_limited_reply, result_reply, socket_address,
    tcping_v1,
    timed_out_reply, validation_reply, Action, ConnectOutcome, HttpReply, ReplyBody, TcpingParams,
    TcpingRes, STATUS_BAD_REQUEST, STATUS_OK, STATUS_REQUEST_TIMEOUT, STATUS_TOO_MANY_REQUESTS,
};
use netstatus_api::config::ApiConfig;
use netstatus_api::validation::{check_fields, MAX_PORT, MIN_PORT};

fn params(ip: &str, port: u16) -> TcpingParams {
    TcpingParams::new(ip.to_string(), port)
}

fn settings() -> ApiConfig {
    ApiConfig { port: 8080, api_timeout: 3000, tcping_timeout: 1000, rate_limit: 60 }
}

fn json_of(reply: &HttpReply) -> &TcpingRes {
    match &reply.body {
        ReplyBody::Json(res) => res,
        ReplyBody::Text(text) => panic!("plain text body: {}", text),
    }
}

fn text_of(reply: &HttpReply) -> &str {
    match &reply.body {
        ReplyBody::Text(text) => text,
        ReplyBody::Json(res) => panic!("json body: {}", res.message()),
    }
}

fn failed(fields: &validator::ValidationErrors) -> Vec<String> {
    let mut names: Vec<String> =
        fields.field_errors().keys().map(|name| name.to_string()).collect();
    names.sort();
    names
}

#[test]
fn status_constants() {
    assert_eq!(STATUS_OK, 200);
    assert_eq!(STATUS_BAD_REQUEST, 400);
    assert_eq!(STATUS_REQUEST_TIMEOUT, 408);
    assert_eq!(STATUS_TOO_MANY_REQUESTS, 429);
    assert_eq!(MIN_PORT, 1);
    assert_eq!(MAX_PORT, 65535);
}

#[test]
fn params_keep_their_fields() {
    let request = params("10.0.0.1", 443);
    assert_eq!(request.ip(), "10.0.0.1");
    assert_eq!(request.port(), 443);
}

#[test]
fn result_keeps_its_fields() {
    let res = TcpingRes::new(true, "fine".to_string());
    assert!(res.status());
    assert_eq!(res.message(), "fine");
}

#[test]
fn ipv4_and_ipv6_literals_are_accepted() {
    assert!(params("127.0.0.1", 80).validate().is_ok());
    assert!(params("255.255.255.255", 65535).validate().is_ok());
    assert!(params("0.0.0.0", 1).validate().is_ok());
    assert!(params("::1", 80).validate().is_ok());
    assert!(params("fe80::223:6cff:fe8a:2e8a", 22).validate().is_ok());
}

#[test]
fn malformed_ip_is_rejected() {
    for ip in ["", "localhost", "256.1.1.1", "1.2.3", "1.2.3.4.5", "1.2.3.4 ", "example.com", "1,2,3,4"] {
        let errors = params(ip, 80).validate().unwrap_err();
        assert_eq!(failed(&errors), vec!["ip".to_string()], "{:?}", ip);
    }
}

#[test]
fn port_zero_is_rejected() {
    let errors = params("127.0.0.1", 0).validate().unwrap_err();
    assert_eq!(failed(&errors), vec!["port".to_string()]);
}

#[test]
fn both_fields_can_fail_together() {
    let errors = params("nowhere", 0).validate().unwrap_err();
    assert_eq!(failed(&errors), vec!["ip".to_string(), "port".to_string()]);
}

#[test]
fn check_fields_follows_the_ip_verdict_it_is_given() {
    assert!(check_fields("not an ip", true, 1).is_ok());
    assert!(check_fields("not an ip", true, 65535).is_ok());
    let errors = check_fields("127.0.0.1", false, 80).unwrap_err();
    assert_eq!(failed(&errors), vec!["ip".to_string()]);
    let errors = check_fields("127.0.0.1", true, 0).unwrap_err();
    assert_eq!(failed(&errors), vec!["port".to_string()]);
    let errors = check_fields("127.0.0.1", false, 0).unwrap_err();
    assert_eq!(failed(&errors), vec!["ip".to_string(), "port".to_string()]);
}

#[test]
fn failures_carry_code_and_parameters() {
    let errors = check_fields("nowhere", false, 0).unwrap_err();
    let by_field = errors.field_errors();
    let ip = &by_field["ip"];
    assert_eq!(ip.len(), 1);
    assert_eq!(ip[0].code, "ip");
    assert_eq!(ip[0].params.len(), 1);
    assert_eq!(ip[0].params["value"].as_str(), Some("nowhere"));
    let port = &by_field["port"];
    assert_eq!(port.len(), 1);
    assert_eq!(port[0].code, "range");
    assert_eq!(port[0].params.len(), 3);
    assert_eq!(port[0].params["min"].as_u64(), Some(1));
    assert_eq!(port[0].params["max"].as_u64(), Some(65535));
    assert_eq!(port[0].params["value"].as_u64(), Some(0));
}

#[test]
fn socket_address_joins_ip_and_decimal_port() {
    assert_eq!(socket_address("127.0.0.1", 8080), "127.0.0.1:8080");
    assert_eq!(socket_address("10.1.2.3", 1), "10.1.2.3:1");
    assert_eq!(socket_address("10.1.2.3", 0), "10.1.2.3:0");
    assert_eq!(socket_address("10.1.2.3", 10), "10.1.2.3:10");
    assert_eq!(socket_address("10.1.2.3", 443), "10.1.2.3:443");
    assert_eq!(socket_address("10.1.2.3", 60009), "10.1.2.3:60009");
    assert_eq!(socket_address("10.1.2.3", 65535), "10.1.2.3:65535");
    assert_eq!(socket_address("", 7), ":7");
}

#[test]
fn socket_address_brackets_ipv6() {
    assert_eq!(socket_address("::1", 80), "[::1]:80");
    assert_eq!(socket_address("::", 1), "[::]:1");
    assert_eq!(socket_address("fe80::223:6cff:fe8a:2e8a", 22), "[fe80::223:6cff:fe8a:2e8a]:22");
    assert_eq!(socket_address("::ffff:254.42.16.14", 65535), "[::ffff:254.42.16.14]:65535");
    assert_eq!(socket_address("2001:db8::1", 0), "[2001:db8::1]:0");
}

#[test]
fn holds_colon_finds_a_colon_anywhere() {
    assert!(holds_colon(":"));
    assert!(holds_colon("::1"));
    assert!(holds_colon("1::"));
    assert!(holds_colon("a:b"));
    assert!(holds_colon("\u{e9}t\u{e9}:"));
    assert!(!holds_colon(""));
    assert!(!holds_colon("127.0.0.1"));
    assert!(!holds_colon("no colon; none"));
}

#[test]
fn socket_address_agrees_with_std_formatting() {
    for port in [0u16, 9, 10, 99, 100, 999, 1000, 9999, 10000, 12345, 65535] {
        assert_eq!(socket_address("192.0.2.1", port), format!("192.0.2.1:{}", port));
    }
}

#[test]
fn connected_probe_is_reported_as_success() {
    let res = probe_result(&ConnectOutcome::Connected);
    assert!(res.status());
    assert_eq!(res.message(), "TCP connection successful");
}

#[test]
fn failed_probe_carries_the_error_text() {
    let outcome = ConnectOutcome::Failed("Connection refused (os error 111)".to_string());
    let res = probe_result(&outcome);
    assert!(!res.status());
    assert_eq!(res.message(), "TCP connection failed: Connection refused (os error 111)");
}

#[test]
fn invalid_address_carries_the_error_text() {
    let outcome = ConnectOutcome::InvalidAddress("invalid socket address syntax".to_string());
    let res = probe_result(&outcome);
    assert!(!res.status());
    assert_eq!(res.message(), "Invalid socket address: invalid socket address syntax");
}

#[test]
fn empty_error_text_leaves_the_prefix() {
    let res = probe_result(&ConnectOutcome::Failed(String::new()));
    assert_eq!(res.message(), "TCP connection failed: ");
}

#[test]
fn reachable_target_gives_200() {
    let reply = probe_reply(&ConnectOutcome::Connected);
    assert_eq!(reply.status, 200);
    assert!(json_of(&reply).status());
    assert_eq!(json_of(&reply).message(), "TCP connection successful");
}

#[test]
fn refused_connection_gives_400() {
    let reply = probe_reply(&ConnectOutcome::Failed("Connection refused (os error 111)".to_string()));
    assert_eq!(reply.status, 400);
    assert!(!json_of(&reply).status());
    assert_eq!(
        json_of(&reply).message(),
        "TCP connection failed: Connection refused (os error 111)"
    );
}

#[test]
fn timed_out_connection_gives_400() {
    let reply = probe_reply(&ConnectOutcome::Failed("connection timed out".to_string()));
    assert_eq!(reply.status, 400);
    assert!(!json_of(&reply).status());
    assert_eq!(json_of(&reply).message(), "TCP connection failed: connection timed out");
}

#[test]
fn result_reply_status_follows_the_result() {
    assert_eq!(result_reply(TcpingRes::new(true, "up".to_string())).status, 200);
    let reply = result_reply(TcpingRes::new(false, "down".to_string()));
    assert_eq!(reply.status, 400);
    assert_eq!(json_of(&reply).message(), "down");
}

#[test]
fn validation_reply_prefixes_the_details() {
    let reply = validation_reply("ip: bad");
    assert_eq!(reply.status, 400);
    assert!(!json_of(&reply).status());
    assert_eq!(json_of(&reply).message(), "Invalid parameters: ip: bad");
}

#[test]
fn rate_limited_reply_is_plain_text_429() {
    let reply = rate_limited_reply();
    assert_eq!(reply.status, 429);
    assert_eq!(text_of(&reply), "Rate limit exceeded");
}

#[test]
fn timed_out_reply_is_plain_text_408() {
    let reply = timed_out_reply();
    assert_eq!(reply.status, 408);
    assert_eq!(text_of(&reply), "Request timed out");
}

#[test]
fn acceptable_request_asks_for_a_connection() {
    let config = ApiConfig { port: 8080, api_timeout: 700, tcping_timeout: 50, rate_limit: 60 };
    match tcping_v1(&params("192.0.2.1", 81), &config) {
        Action::Connect { address, timeout_ms, deadline_ms } => {
            assert_eq!(address, "192.0.2.1:81");
            assert_eq!(timeout_ms, 50);
            assert_eq!(deadline_ms, 700);
        }
        Action::Respond(reply) => panic!("answered with {}", reply.status),
    }
}

#[test]
fn acceptable_ipv6_request_asks_for_a_connection_in_brackets() {
    match tcping_v1(&params("::1", 80), &settings()) {
        Action::Connect { address, timeout_ms, deadline_ms } => {
            assert_eq!(address, "[::1]:80");
            assert_eq!(timeout_ms, 1000);
            assert_eq!(deadline_ms, 3000);
        }
        Action::Respond(reply) => panic!("answered with {}", reply.status),
    }
}

#[test]
fn malformed_ip_is_answered_without_a_connection() {
    match tcping_v1(&params("nowhere", 80), &settings()) {
        Action::Respond(reply) => {
            assert_eq!(reply.status, 400);
            assert!(!json_of(&reply).status());
            assert_eq!(
                json_of(&reply).message(),
                "Invalid parameters: ip: Validation error: ip [{\"value\": String(\"nowhere\")}]"
            );
        }
        Action::Connect { address, .. } => panic!("would connect to {}", address),
    }
}

#[test]
fn port_zero_is_answered_without_a_connection() {
    match tcping_v1(&params("127.0.0.1", 0), &settings()) {
        Action::Respond(reply) => {
            assert_eq!(reply.status, 400);
            assert!(!json_of(&reply).status());
            let message = json_of(&reply).message();
            assert!(message.starts_with("Invalid parameters: port: Validation error: range ["));
            assert!(message.contains("\"value\": Number(0)"));
            assert!(message.contains("\"min\": Number(1)"));
            assert!(message.contains("\"max\": Number(65535)"));
        }
        Action::Connect { address, .. } => panic!("would connect to {}", address),
    }
}

#[test]
fn two_bad_fields_are_both_named() {
    match tcping_v1(&params("nowhere", 0), &settings()) {
        Action::Respond(reply) => {
            let message = json_of(&reply).message();
            assert!(message.starts_with("Invalid parameters: "));
            let details = &message["Invalid parameters: ".len()..];
            assert!(details.contains("ip: "));
            assert!(details.contains("port: "));
            assert!(message.contains("ip: Validation error: ip ["));
            assert!(message.contains("port: Validation error: range ["));
        }
        Action::Connect { address, .. } => panic!("would connect to {}", address),
    }
}
