use cucumber::event::json::{read_json, Json};
use cucumber::event::request::{
    decode_request, read_command, request_from_json, BeginScenarioRequest, Command, DecodeError,
    EndScenarioRequest, InvokeArgument, InvokeRequest, Request, SnippetTextRequest,
    StepMatchesRequest,
};
use cucumber::event::response::StepArg;

#[test]
fn request_read_step_matches() {
    let json = "[\"step_matches\", {\"name_to_match\": \"we're all wired\"}]";
    let res = decode_request(json);
    match res.unwrap() {
        Request::StepMatches(payload) => {
            assert_eq!(payload, StepMatchesRequest { name_to_match: "we're all wired".to_owned() })
        }
        _ => panic!("result was not StepMatches type"),
    }
}

#[test]
fn request_read_invoke_no_args() {
    let json = "[\"invoke\", {\"id\":\"1\", \"args\": []}]";
    let res = decode_request(json);
    match res.unwrap() {
        Request::Invoke(payload) => {
            assert_eq!(payload, InvokeRequest { id: "1".to_owned(), args: Vec::new() })
        }
        _ => panic!("result was not Invoke type"),
    }
}

#[test]
fn request_read_invoke_string_arg() {
    let json = "[\"invoke\", {\"id\":\"1\", \"args\": [\"wired\"]}]";
    let res = decode_request(json);
    println!("{:?}", res);
    match res.unwrap() {
        Request::Invoke(payload) => {
            assert_eq!(
                payload,
                InvokeRequest { id: "1".to_owned(), args: vec!(InvokeArgument::from_str("wired")) }
            )
        }
        _ => panic!("result was not Invoke type"),
    }
}

#[test]
fn request_read_invoke_complicated_args() {
    let json =
        "[\"invoke\", {\"id\":\"1\", \"args\": [\"we're\", [[\"wired\"],[\"high\"],[\"happy\"]]]}]";
    let res = decode_request(json);
    println!("{:?}", res);
    match res.unwrap() {
        Request::Invoke(payload) => {
            assert_eq!(
                payload,
                InvokeRequest {
                    id: "1".to_owned(),
                    args: vec!(
                        InvokeArgument::from_str("we're"),
                        InvokeArgument::Table(vec!(
                            vec!("wired".to_owned()),
                            vec!("high".to_owned()),
                            vec!("happy".to_owned())
                        ))
                    )
                }
            )
        }
        _ => panic!("result was not Invoke type"),
    }
}

#[test]
fn request_read_begin_scenario_empty() {
    let json = "[\"begin_scenario\"]";
    let res = decode_request(json);
    match res.unwrap() {
        Request::BeginScenario(payload) => {
            assert_eq!(payload, BeginScenarioRequest { tags: Vec::new() })
        }
        _ => panic!("result was not BeginScenario type"),
    }
}

#[test]
fn request_read_begin_scenario() {
    let json = "[\"begin_scenario\", { \"tags\": [\"hello\"] }]";
    let res = decode_request(json);
    match res.unwrap() {
        Request::BeginScenario(payload) => {
            assert_eq!(payload, BeginScenarioRequest { tags: vec!("hello".to_owned()) })
        }
        _ => panic!("result was not BeginScenario type"),
    }
}

#[test]
fn request_read_end_scenario_empty() {
    let json = "[\"end_scenario\"]";
    let res = decode_request(json);
    match res.unwrap() {
        Request::EndScenario(payload) => {
            assert_eq!(payload, EndScenarioRequest { tags: Vec::new() })
        }
        _ => panic!("result was not EndScenario type"),
    }
}

#[test]
fn request_read_end_scenario() {
    let json = "[\"end_scenario\", { \"tags\": [\"hello\"]}]";
    let res = decode_request(json);
    match res.unwrap() {
        Request::EndScenario(payload) => {
            assert_eq!(payload, EndScenarioRequest { tags: vec!("hello".to_owned()) })
        }
        _ => panic!("result was not EndScenario type"),
    }
}

#[test]
fn request_read_snippet_text() {
    let json = "[\"snippet_text\", {\"step_keyword\": \"Given\", \"multiline_arg_class\":\"\", \"step_name\":\"we're all wired\"}]";
    let res = decode_request(json);
    match res.unwrap() {
        Request::SnippetText(payload) => {
            assert_eq!(
                payload,
                SnippetTextRequest {
                    step_keyword: "Given".to_owned(),
                    multiline_arg_class: "".to_owned(),
                    step_name: "we're all wired".to_owned()
                }
            )
        }
        _ => panic!("result was not SnippetText type"),
    }
}

#[test]
fn read_invoke_null_arg_is_absent() {
    let res = decode_request("[\"invoke\", {\"id\":\"3\", \"args\": [null, \"x\", []]}]");
    assert_eq!(
        res,
        Ok(Request::Invoke(InvokeRequest {
            id: "3".to_owned(),
            args: vec![
                InvokeArgument::Absent,
                InvokeArgument::from_str("x"),
                InvokeArgument::Table(vec![])
            ]
        }))
    );
}

#[test]
fn command_tag_is_case_insensitive() {
    assert_eq!(
        decode_request("[\"Begin_Scenario\"]"),
        Ok(Request::BeginScenario(BeginScenarioRequest { tags: vec![] }))
    );
    assert_eq!(
        decode_request("[\"STEP_MATCHES\", {\"name_to_match\": \"a\"}]"),
        Ok(Request::StepMatches(StepMatchesRequest { name_to_match: "a".to_owned() }))
    );
    assert_eq!(read_command("InVoKe"), Some(Command::Invoke));
    assert_eq!(read_command("end_scenario"), Some(Command::EndScenario));
    assert_eq!(read_command("SNIPPET_TEXT"), Some(Command::SnippetText));
    assert_eq!(read_command("snippet-text"), None);
    assert_eq!(read_command(""), None);
}

#[test]
fn decode_errors() {
    assert_eq!(decode_request("not json"), Err(DecodeError::Syntax));
    assert_eq!(decode_request(""), Err(DecodeError::Syntax));
    assert_eq!(decode_request("[\"invoke\""), Err(DecodeError::Syntax));
    assert_eq!(decode_request("{}"), Err(DecodeError::NoCommand));
    assert_eq!(decode_request("[]"), Err(DecodeError::NoCommand));
    assert_eq!(decode_request("[1]"), Err(DecodeError::NoCommand));
    assert_eq!(decode_request("[\"dance\"]"), Err(DecodeError::UnknownCommand));
    assert_eq!(decode_request("[\"invoke\"]"), Err(DecodeError::BadPayload));
    assert_eq!(decode_request("[\"step_matches\"]"), Err(DecodeError::BadPayload));
    assert_eq!(decode_request("[\"snippet_text\"]"), Err(DecodeError::BadPayload));
    assert_eq!(decode_request("[\"step_matches\", {}]"), Err(DecodeError::BadPayload));
    assert_eq!(
        decode_request("[\"step_matches\", {\"name_to_match\": 1}]"),
        Err(DecodeError::BadPayload)
    );
    assert_eq!(decode_request("[\"begin_scenario\", {}]"), Err(DecodeError::BadPayload));
    assert_eq!(
        decode_request("[\"begin_scenario\", {\"tags\": [1]}]"),
        Err(DecodeError::BadPayload)
    );
    assert_eq!(
        decode_request("[\"begin_scenario\", {\"tags\": []}, 3]"),
        Err(DecodeError::BadPayload)
    );
    assert_eq!(
        decode_request("[\"invoke\", {\"id\":\"1\", \"args\": [true]}]"),
        Err(DecodeError::BadPayload)
    );
    assert_eq!(
        decode_request("[\"invoke\", {\"id\":\"1\", \"args\": [[\"row\"]]}]"),
        Err(DecodeError::BadPayload)
    );
    assert_eq!(
        decode_request("[\"invoke\", {\"id\":\"1\", \"args\": [7]}]"),
        Err(DecodeError::BadPayload)
    );
    assert_eq!(decode_request("[\"invoke\", {\"id\":\"1\"}]"), Err(DecodeError::BadPayload));
}

#[test]
fn request_from_json_reads_a_built_value() {
    let value = Json::Array(vec![
        Json::Text("end_scenario".to_owned()),
        Json::Object(vec![(
            "tags".to_owned(),
            Json::Array(vec![Json::Text("@a".to_owned()), Json::Text("@b".to_owned())]),
        )]),
    ]);
    assert_eq!(
        request_from_json(&value),
        Ok(Request::EndScenario(EndScenarioRequest {
            tags: vec!["@a".to_owned(), "@b".to_owned()]
        }))
    );
    assert_eq!(request_from_json(&Json::Null), Err(DecodeError::NoCommand));
}

#[test]
fn read_json_gives_the_value() {
    assert_eq!(
        read_json("{\"b\": [null, true, \"x\\ny\"], \"a\": 12}"),
        Some(Json::Object(vec![
            ("a".to_owned(), Json::Number("12".to_owned())),
            (
                "b".to_owned(),
                Json::Array(vec![Json::Null, Json::Bool(true), Json::Text("x\ny".to_owned())])
            ),
        ]))
    );
    assert_eq!(read_json("[1,"), None);
    let value = read_json("{\"k\": \"v\"}").unwrap();
    assert_eq!(value.get("k"), Some(&Json::Text("v".to_owned())));
    assert_eq!(value.get("missing"), None);
    assert_eq!(value.get_text("k"), Some("v".to_owned()));
    assert_eq!(Json::Null.as_text(), None);
    assert_eq!(Json::Array(vec![Json::Null]).as_texts(), None);
}

#[test]
fn from_step_arg_follows_the_capture() {
    assert_eq!(
        InvokeArgument::from_step_arg(StepArg { val: Some("7".to_owned()), pos: Some(3) }),
        InvokeArgument::String("7".to_owned())
    );
    assert_eq!(
        InvokeArgument::from_step_arg(StepArg { val: None, pos: None }),
        InvokeArgument::Absent
    );
}
