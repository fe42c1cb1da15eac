use cucumber::event::request::{decode_request, encode_request, DecodeError, InvokeArgument};
use cucumber::event::response::{
    decode_response, encode_response, InvokeResponse, Response, StepMatchesResponse,
};

fn request_round_trip(line: &str) -> String {
    encode_request(&decode_request(line).unwrap())
}

fn response_round_trip(line: &str) -> String {
    encode_response(&decode_response(line).unwrap())
}

#[test]
fn requests_round_trip() {
    for line in [
        "[\"step_matches\",{\"name_to_match\":\"we're all wired\"}]",
        "[\"invoke\",{\"id\":\"1\",\"args\":[]}]",
        "[\"invoke\",{\"id\":\"1\",\"args\":[\"wired\"]}]",
        "[\"invoke\",{\"id\":\"1\",\"args\":[\"we're\",[[\"wired\"],[\"high\"],[\"happy\"]]]}]",
        "[\"invoke\",{\"id\":\"12\",\"args\":[null,\"a \\\"b\\\"\",[[\"x\",\"y\"],[]],[]]}]",
        "[\"begin_scenario\"]",
        "[\"begin_scenario\",{\"tags\":[\"hello\"]}]",
        "[\"end_scenario\"]",
        "[\"end_scenario\",{\"tags\":[\"hello\",\"@smoke\"]}]",
        "[\"snippet_text\",{\"step_keyword\":\"Given\",\"multiline_arg_class\":\"\",\"step_name\":\"we're all wired\"}]",
    ] {
        assert_eq!(request_round_trip(line), line);
    }
}

#[test]
fn requests_round_trip_modulo_whitespace() {
    assert_eq!(
        request_round_trip(" [ \"invoke\" , { \"id\" : \"1\" , \"args\" : [ \"wired\" ] } ] "),
        "[\"invoke\",{\"id\":\"1\",\"args\":[\"wired\"]}]"
    );
    assert_eq!(
        request_round_trip("[\"begin_scenario\", { \"tags\": [\"hello\"] }]"),
        "[\"begin_scenario\",{\"tags\":[\"hello\"]}]"
    );
}

#[test]
fn responses_round_trip() {
    for line in [
        "[\"success\"]",
        "[\"success\",[]]",
        "[\"success\",\"Snippet\"]",
        "[\"pending\",\"I'll do it later\"]",
        "[\"fail\",{\"message\":\"The wires are down\",\"exception\":\"Some.Foreign.ExceptionType\"}]",
        "[\"fail\",{\"message\":\"boom\",\"exception\":\"\"}]",
        "[\"success\",[{\"id\":\"1\",\"args\":[{\"val\":\"wired\",\"pos\":10}],\"source\":\"test\"}]]",
        "[\"success\",[{\"id\":\"0\",\"args\":[{\"val\":null,\"pos\":null},{\"val\":\"5\",\"pos\":8}],\"source\":\"f:1\"},{\"id\":\"3\",\"args\":[],\"source\":\"g:2\"}]]",
    ] {
        assert_eq!(response_round_trip(line), line);
    }
}

#[test]
fn decode_response_gives_the_value() {
    assert_eq!(decode_response("[\"success\"]"), Ok(Response::Invoke(InvokeResponse::Success)));
    assert_eq!(
        decode_response("[\"SUCCESS\", []]"),
        Ok(Response::StepMatches(StepMatchesResponse::NoMatch))
    );
    assert_eq!(
        decode_response("[\"pending\",\"TODO\"]"),
        Ok(Response::Invoke(InvokeResponse::pending("TODO")))
    );
    assert_eq!(decode_response("[\"pending\"]"), Err(DecodeError::BadPayload));
    assert_eq!(decode_response("[\"fail\",{\"message\":\"m\"}]"), Err(DecodeError::BadPayload));
    assert_eq!(
        decode_response("[\"success\",[{\"id\":\"1\",\"args\":[]}]]"),
        Err(DecodeError::BadPayload)
    );
    assert_eq!(decode_response("[\"maybe\"]"), Err(DecodeError::UnknownCommand));
    assert_eq!(decode_response("[]"), Err(DecodeError::NoCommand));
    assert_eq!(decode_response("nope"), Err(DecodeError::Syntax));
    assert_eq!(
        decode_response("[\"success\",[{\"id\":\"1\",\"args\":[{\"val\":\"a\",\"pos\":-1}],\"source\":\"s\"}]]"),
        Err(DecodeError::BadPayload)
    );
    assert_eq!(
        decode_response("[\"success\",[{\"id\":\"1\",\"args\":[{\"val\":\"a\",\"pos\":1.5}],\"source\":\"s\"}]]"),
        Err(DecodeError::BadPayload)
    );
}

#[test]
fn argument_to_json_forms() {
    assert_eq!(InvokeArgument::from_str("a\"b").to_json(), "\"a\\\"b\"");
    assert_eq!(InvokeArgument::Absent.to_json(), "null");
    assert_eq!(
        InvokeArgument::Table(vec![vec!["a".to_owned(), "b".to_owned()], vec![]]).to_json(),
        "[[\"a\",\"b\"],[]]"
    );
}
