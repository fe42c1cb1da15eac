use cucumber::event::response::{
    encode_response, FailMessage, InvokeResponse, Response, Step, StepArg, StepMatchesResponse,
};

#[test]
fn response_invoke_response_check_eq() {
    let eq = InvokeResponse::check_eq(1, 1);
    let not_eq = InvokeResponse::check_eq(1, 2);

    assert_eq!(eq, InvokeResponse::Success);
    assert_eq!(not_eq, InvokeResponse::fail_from_str("Value [1] was not equal to [2]"));
}

#[test]
fn response_invoke_response_check_not_eq() {
    let eq = InvokeResponse::check_not_eq(1, 1);
    let not_eq = InvokeResponse::check_not_eq(1, 2);

    assert_eq!(eq, InvokeResponse::fail_from_str("Value [1] was equal to [1]"));
    assert_eq!(not_eq, InvokeResponse::Success);
}

#[test]
fn response_invoke_response_check() {
    let t = InvokeResponse::check(true);
    let f = InvokeResponse::check(false);

    assert_eq!(t, InvokeResponse::Success);
    assert_eq!(f, InvokeResponse::fail_from_str("invoke response check failed"));
}

#[test]
fn response_invoke_response_expect() {
    let t = InvokeResponse::expect(true, "Unevaluated message");
    let f = InvokeResponse::expect(false, "Evaluated message");

    assert_eq!(t, InvokeResponse::Success);
    assert_eq!(f, InvokeResponse::fail_from_str("Evaluated message"));
}

#[test]
fn response_invoke_response_and() {
    // T & T = T
    assert_eq!(InvokeResponse::Success, InvokeResponse::Success.and(InvokeResponse::Success));

    // T & F = F
    assert_eq!(
        InvokeResponse::fail_from_str("msg"),
        InvokeResponse::Success.and(InvokeResponse::fail_from_str("msg"))
    );

    // F & T = F
    assert_eq!(
        InvokeResponse::fail_from_str("msg"),
        InvokeResponse::fail_from_str("msg").and(InvokeResponse::Success)
    );

    // F1 & F2 = F1
    assert_eq!(
        InvokeResponse::fail_from_str("msg1"),
        InvokeResponse::fail_from_str("msg1").and(InvokeResponse::fail_from_str("msg2"))
    );
}

#[test]
fn response_invoke_response_or() {
    // T & T = T
    assert_eq!(InvokeResponse::Success, InvokeResponse::Success.or(InvokeResponse::Success));

    // T & F = T
    assert_eq!(
        InvokeResponse::Success,
        InvokeResponse::Success.or(InvokeResponse::fail_from_str("msg"))
    );

    // F & T = T
    assert_eq!(
        InvokeResponse::Success,
        InvokeResponse::fail_from_str("msg").or(InvokeResponse::Success)
    );

    // F1 & F2 = F2
    assert_eq!(
        InvokeResponse::fail_from_str("msg2"),
        InvokeResponse::fail_from_str("msg1").or(InvokeResponse::fail_from_str("msg2"))
    );
}

#[test]
fn response_it_serializes_step_matches_no_match() {
    let response = Response::StepMatches(StepMatchesResponse::NoMatch);
    let string = encode_response(&response);
    assert_eq!(string, "[\"success\",[]]");
}

#[test]
fn response_it_serializes_step_matches_match() {
    let response = Response::StepMatches(StepMatchesResponse::Match(vec![Step {
        id: "1".to_owned(),
        source: "test".to_owned(),
        args: vec![StepArg { val: Some("arg".to_owned()), pos: Some(0) }],
    }]));
    let string = encode_response(&response);
    assert_eq!(
        string,
        "[\"success\",[{\"id\":\"1\",\"args\":[{\"val\":\"arg\",\"pos\":0}],\"source\":\"test\"}]]"
    );
}

#[test]
fn response_it_serializes_invoke_pending() {
    let response = Response::Invoke(InvokeResponse::pending_from_str("stuff isn't done"));
    let string = encode_response(&response);
    assert_eq!(string, "[\"pending\",\"stuff isn't done\"]");
}

#[test]
fn response_it_serializes_invoke_success() {
    let response = Response::Invoke(InvokeResponse::Success);
    let string = encode_response(&response);
    assert_eq!(string, "[\"success\"]");
}

#[test]
fn response_it_serializes_invoke_fail() {
    let response = Response::Invoke(InvokeResponse::fail_from_str("stuff is broken"));
    let string = encode_response(&response);
    assert_eq!(string, "[\"fail\",{\"message\":\"stuff is broken\",\"exception\":\"\"}]");
}

#[test]
fn response_it_serializes_begin_scenario() {
    let response = Response::BeginScenario;
    let string = encode_response(&response);
    assert_eq!(string, "[\"success\"]");
}

#[test]
fn response_it_serializes_end_scenario() {
    let response = Response::EndScenario;
    let string = encode_response(&response);
    assert_eq!(string, "[\"success\"]");
}

#[test]
fn response_it_serializes_snippet_text() {
    let response = Response::SnippetText("Snippet".to_owned());
    let string = encode_response(&response);
    assert_eq!(string, "[\"success\",\"Snippet\"]");
}

#[test]
fn encode_escapes_strings() {
    let response = Response::Invoke(InvokeResponse::pending_from_str("say \"hi\"\n\\ tab\t"));
    assert_eq!(encode_response(&response), "[\"pending\",\"say \\\"hi\\\"\\n\\\\ tab\\t\"]");
    let fail = Response::Invoke(InvokeResponse::Fail(FailMessage {
        message: "m".to_owned(),
        exception: "E\"x".to_owned(),
    }));
    assert_eq!(encode_response(&fail), "[\"fail\",{\"message\":\"m\",\"exception\":\"E\\\"x\"}]");
}

#[test]
fn encode_absent_capture_as_null() {
    let response = Response::StepMatches(StepMatchesResponse::Match(vec![
        Step {
            id: "0".to_owned(),
            source: "f:1".to_owned(),
            args: vec![
                StepArg { val: None, pos: None },
                StepArg { val: Some("5".to_owned()), pos: Some(4294967295) },
            ],
        },
        Step { id: "10".to_owned(), source: "g:2".to_owned(), args: vec![] },
    ]));
    assert_eq!(
        encode_response(&response),
        "[\"success\",[{\"id\":\"0\",\"args\":[{\"val\":null,\"pos\":null},{\"val\":\"5\",\"pos\":4294967295}],\"source\":\"f:1\"},{\"id\":\"10\",\"args\":[],\"source\":\"g:2\"}]]"
    );
    assert_eq!(
        encode_response(&Response::StepMatches(StepMatchesResponse::Match(vec![]))),
        "[\"success\",[]]"
    );
}

#[test]
fn step_arg_to_json_has_val_then_pos() {
    assert_eq!(
        StepArg { val: Some("7".to_owned()), pos: Some(7) }.to_json(),
        "{\"val\":\"7\",\"pos\":7}"
    );
}

#[test]
fn outcome_builders() {
    assert_eq!(InvokeResponse::pending("TODO"), InvokeResponse::Pending("TODO".to_owned()));
    assert_eq!(
        InvokeResponse::fail("no"),
        InvokeResponse::Fail(FailMessage { message: "no".to_owned(), exception: "".to_owned() })
    );
    assert_eq!(InvokeResponse::with_fail_message("no"), InvokeResponse::fail_from_str("no"));
    assert_eq!(
        FailMessage::new("m".to_owned()),
        FailMessage { message: "m".to_owned(), exception: String::new() }
    );
    assert_eq!(
        InvokeResponse::not_equal_failure("a", "b"),
        InvokeResponse::fail_from_str("Value [a] was not equal to [b]")
    );
    assert_eq!(
        InvokeResponse::equal_failure("a", "a"),
        InvokeResponse::fail_from_str("Value [a] was equal to [a]")
    );
    assert_eq!(
        InvokeResponse::check_eq("x", "y"),
        InvokeResponse::fail_from_str("Value [\"x\"] was not equal to [\"y\"]")
    );
}

#[test]
fn quoting_follows_the_escape_table() {
    let text = "\u{1}\u{8}\u{c}\r\u{1f} \u{7f}é/'".to_owned();
    assert_eq!(
        encode_response(&Response::SnippetText(text)),
        "[\"success\",\"\\u0001\\b\\f\\r\\u001f \u{7f}é/'\"]"
    );
    assert_eq!(
        encode_response(&Response::SnippetText("\u{0}\u{b}\u{e}\u{10}".to_owned())),
        "[\"success\",\"\\u0000\\u000b\\u000e\\u0010\"]"
    );
}
