use cucumber::cucumber_regex::build;
use cucumber::definitions::destructuring::invoke_arg_set::try_destructure;
use cucumber::definitions::registration::{source_location, CucumberRegistrar};
use cucumber::definitions::typed::{StepBody, TypedStep};
use cucumber::event::request::{decode_request, InvokeArgument, Request, SnippetTextRequest};
use cucumber::event::response::{encode_response, InvokeResponse, Response};
use cucumber::runner::{invoke_to_response, snippet, CommandRunner, PanicPayload, WorldRunner};
use cucumber::server::{Action, ReadResult, Server, StopPoll};
use cucumber::state::{Cucumber, SendableStep};

struct BoxedStep(Box<dyn Fn(&Cucumber<u32, BoxedStep>, &mut u32, Vec<InvokeArgument>) -> InvokeResponse>);

impl SendableStep<u32> for BoxedStep {
    fn run(
        &self,
        cuke: &Cucumber<u32, BoxedStep>,
        world: &mut u32,
        args: Vec<InvokeArgument>,
    ) -> InvokeResponse {
        (self.0)(cuke, world, args)
    }
}

fn coins_step() -> BoxedStep {
    BoxedStep(Box::new(|_, world, args| {
        let (coins,): (u32,) = match try_destructure(args) {
            Ok(values) => values,
            Err(failed) => return failed,
        };
        *world = coins;
        InvokeResponse::Success
    }))
}

fn coins_runner() -> WorldRunner<u32, BoxedStep> {
    let mut runner: WorldRunner<u32, BoxedStep> = WorldRunner::new(0);
    runner.given("steps.rs", 12, build("^I have (\\d+) coins$"), coins_step());
    runner
}

fn answer(runner: &mut WorldRunner<u32, BoxedStep>, line: &str) -> String {
    let request = decode_request(line).unwrap();
    assert!(runner.can_execute(&request));
    encode_response(&runner.execute_cmd(request))
}

#[test]
fn basic_match_and_invoke() {
    let mut runner = coins_runner();
    assert_eq!(
        answer(&mut runner, "[\"step_matches\",{\"name_to_match\":\"I have 7 coins\"}]"),
        "[\"success\",[{\"id\":\"0\",\"args\":[{\"val\":\"7\",\"pos\":7}],\"source\":\"steps.rs:12\"}]]"
    );
    assert_eq!(answer(&mut runner, "[\"invoke\",{\"id\":\"0\",\"args\":[\"7\"]}]"), "[\"success\"]");
    assert_eq!(*runner.world(), 7);
}

#[test]
fn step_matches_without_a_match() {
    let mut runner = coins_runner();
    assert_eq!(
        answer(&mut runner, "[\"step_matches\",{\"name_to_match\":\"I have no coins\"}]"),
        "[\"success\",[]]"
    );
}

#[test]
fn pending_step() {
    let mut runner: WorldRunner<u32, BoxedStep> = WorldRunner::new(0);
    runner.when(
        "steps.rs",
        3,
        build("^later$"),
        BoxedStep(Box::new(|_, _, _| InvokeResponse::pending("TODO"))),
    );
    assert_eq!(answer(&mut runner, "[\"invoke\",{\"id\":\"0\",\"args\":[]}]"), "[\"pending\",\"TODO\"]");
}

#[test]
fn panic_payload_becomes_failure() {
    let folded = invoke_to_response(Err(PanicPayload::Message("boom".to_owned())));
    assert_eq!(
        encode_response(&Response::Invoke(folded)),
        "[\"fail\",{\"message\":\"boom\",\"exception\":\"\"}]"
    );
    assert_eq!(
        invoke_to_response(Err(PanicPayload::Outcome(InvokeResponse::pending("p")))),
        InvokeResponse::pending("p")
    );
    assert_eq!(
        invoke_to_response(Err(PanicPayload::Other)),
        InvokeResponse::fail_from_str("Box<Any>")
    );
    assert_eq!(invoke_to_response(Ok(InvokeResponse::Success)), InvokeResponse::Success);
}

#[test]
fn arity_mismatch() {
    let mut runner = coins_runner();
    assert_eq!(
        answer(&mut runner, "[\"invoke\",{\"id\":\"0\",\"args\":[]}]"),
        "[\"fail\",{\"message\":\"Expected [1] arguments, but found [0] in step definition\",\"exception\":\"\"}]"
    );
    assert_eq!(
        answer(&mut runner, "[\"invoke\",{\"id\":\"0\",\"args\":[\"many\"]}]"),
        "[\"fail\",{\"message\":\"Argument in position [0] did not have the correct type or was unparseable\",\"exception\":\"\"}]"
    );
    assert_eq!(*runner.world(), 0);
}

#[test]
fn scenario_tag_lifecycle() {
    let mut runner = coins_runner();
    assert_eq!(answer(&mut runner, "[\"begin_scenario\",{\"tags\":[\"@smoke\"]}]"), "[\"success\"]");
    assert_eq!(runner.tags(), &vec!["@smoke".to_owned()]);
    assert_eq!(answer(&mut runner, "[\"invoke\",{\"id\":\"0\",\"args\":[\"1\"]}]"), "[\"success\"]");
    assert_eq!(
        answer(&mut runner, "[\"step_matches\",{\"name_to_match\":\"x\"}]"),
        "[\"success\",[]]"
    );
    assert_eq!(runner.tags(), &vec!["@smoke".to_owned()]);
    assert_eq!(answer(&mut runner, "[\"end_scenario\"]"), "[\"success\"]");
    assert!(runner.tags().is_empty());
}

#[test]
fn invoke_of_unknown_step_cannot_execute() {
    let runner = coins_runner();
    let request = decode_request("[\"invoke\",{\"id\":\"1\",\"args\":[]}]").unwrap();
    assert!(!runner.can_execute(&request));
    let request = decode_request("[\"invoke\",{\"id\":\"zero\",\"args\":[]}]").unwrap();
    assert!(!runner.can_execute(&request));
    let request = decode_request("[\"invoke\",{\"id\":\"0\",\"args\":[]}]").unwrap();
    assert!(runner.can_execute(&request));
}

#[test]
fn snippet_names_keyword_and_step() {
    let text = snippet("Given", "we're all wired");
    assert_eq!(
        text,
        "  // In a step registration block where cuke: &mut CucumberRegistrar<YourWorld>\n  use cucumber::InvokeResponse;\n  use cucumber::helpers::r;\n  Given!(cuke, r(\"^we're all wired$\"), Box::new(move |c, _, _| {\n    c.pending(\"TODO\")\n  }));"
    );
    let mut runner = coins_runner();
    let response = runner.execute_cmd(Request::SnippetText(SnippetTextRequest {
        step_keyword: "Then".to_owned(),
        multiline_arg_class: "".to_owned(),
        step_name: "x".to_owned(),
    }));
    assert_eq!(response, Response::SnippetText(snippet("Then", "x")));
}

#[test]
fn registration_keywords_are_alike() {
    let mut runner: WorldRunner<u32, BoxedStep> = WorldRunner::new(0);
    runner.given("a.rs", 1, build("^a$"), coins_step());
    runner.when("b.rs", 2, build("^b$"), coins_step());
    runner.then("c.rs", 3, build("^c$"), coins_step());
    assert_eq!(
        answer(&mut runner, "[\"step_matches\",{\"name_to_match\":\"c\"}]"),
        "[\"success\",[{\"id\":\"2\",\"args\":[],\"source\":\"c.rs:3\"}]]"
    );
    assert_eq!(source_location("dir/file.rs", 120), "dir/file.rs:120");
}

#[test]
fn server_answers_lines() {
    let mut server = Server::new(coins_runner());
    assert_eq!(
        server.handle_line("[\"begin_scenario\"]\n"),
        Action::Send("[\"success\"]\n".to_owned())
    );
    assert_eq!(
        server.handle_line("[\"invoke\",{\"id\":\"0\",\"args\":[\"3\"]}]\n"),
        Action::Send("[\"success\"]\n".to_owned())
    );
    assert_eq!(*server.runner().world(), 3);
    assert_eq!(server.handle_line("garbage\n"), Action::Continue);
    assert_eq!(server.handle_line("[\"unknown\"]\n"), Action::Continue);
    assert_eq!(server.handle_line("[\"invoke\",{\"id\":\"9\",\"args\":[]}]\n"), Action::Abort);
    assert_eq!(
        server.on_read(ReadResult::Line("[\"end_scenario\"]\n".to_owned())),
        Action::Send("[\"success\"]\n".to_owned())
    );
    assert_eq!(server.on_read(ReadResult::Closed), Action::Exit);
    assert_eq!(server.on_read(ReadResult::Failed), Action::Continue);
}

#[test]
fn server_loop_decisions() {
    assert!(Server::<WorldRunner<u32, BoxedStep>>::should_stop(StopPoll::Signalled));
    assert!(Server::<WorldRunner<u32, BoxedStep>>::should_stop(StopPoll::Disconnected));
    assert!(!Server::<WorldRunner<u32, BoxedStep>>::should_stop(StopPoll::Quiet));
    assert_eq!(Server::<WorldRunner<u32, BoxedStep>>::address(None), "0.0.0.0:7878");
    assert_eq!(Server::<WorldRunner<u32, BoxedStep>>::address(Some("127.0.0.1:1")), "127.0.0.1:1");
}

struct StoreCoins;

impl StepBody<u32, (u32,)> for StoreCoins {
    fn call(
        &self,
        _cuke: &Cucumber<u32, TypedStep<StoreCoins, (u32,)>>,
        world: &mut u32,
        (coins,): (u32,),
    ) -> InvokeResponse {
        *world = coins;
        InvokeResponse::Success
    }
}

#[test]
fn typed_step_converts_then_runs_its_body() {
    let mut runner: WorldRunner<u32, TypedStep<StoreCoins, (u32,)>> = WorldRunner::new(0);
    runner.given("steps.rs", 12, build("^I have (\\d+) coins$"), TypedStep::new(StoreCoins));

    let invoke = decode_request("[\"invoke\",{\"id\":\"0\",\"args\":[\"7\"]}]").unwrap();
    assert_eq!(runner.execute_cmd(invoke), Response::Invoke(InvokeResponse::Success));
    assert_eq!(*runner.world(), 7);

    let none = decode_request("[\"invoke\",{\"id\":\"0\",\"args\":[]}]").unwrap();
    assert_eq!(
        runner.execute_cmd(none),
        Response::Invoke(InvokeResponse::fail_from_str(
            "Expected [1] arguments, but found [0] in step definition"
        ))
    );
    assert_eq!(*runner.world(), 7);

    let wrong = decode_request("[\"invoke\",{\"id\":\"0\",\"args\":[null]}]").unwrap();
    assert_eq!(
        runner.execute_cmd(wrong),
        Response::Invoke(InvokeResponse::fail_from_str(
            "Argument in position [0] did not have the correct type or was unparseable"
        ))
    );
    assert_eq!(*runner.world(), 7);
}

#[test]
fn requests_within_the_limits_are_executable() {
    let runner = coins_runner();
    let request = decode_request("[\"step_matches\",{\"name_to_match\":\"x\"}]").unwrap();
    assert!(runner.can_execute(&request));
    let request = decode_request("[\"begin_scenario\"]").unwrap();
    assert!(runner.can_execute(&request));
}

#[test]
fn server_handles_lines_in_order() {
    let mut server = Server::new(coins_runner());
    let lines = vec![
        "[\"begin_scenario\",{\"tags\":[\"@a\"]}]\n".to_owned(),
        "not a request\n".to_owned(),
        "[\"invoke\",{\"id\":\"0\",\"args\":[\"4\"]}]\n".to_owned(),
        "[\"step_matches\",{\"name_to_match\":\"I have 4 coins\"}]\n".to_owned(),
        "[\"invoke\",{\"id\":\"5\",\"args\":[]}]\n".to_owned(),
        "[\"end_scenario\"]\n".to_owned(),
    ];
    assert_eq!(
        server.handle_lines(&lines),
        vec![
            Action::Send("[\"success\"]\n".to_owned()),
            Action::Continue,
            Action::Send("[\"success\"]\n".to_owned()),
            Action::Send(
                "[\"success\",[{\"id\":\"0\",\"args\":[{\"val\":\"4\",\"pos\":7}],\"source\":\"steps.rs:12\"}]]\n"
                    .to_owned()
            ),
            Action::Abort,
        ]
    );
    assert_eq!(*server.runner().world(), 4);
    assert_eq!(server.runner().tags(), &vec!["@a".to_owned()]);
    assert_eq!(server.handle_lines(&Vec::new()), Vec::<Action>::new());
}
