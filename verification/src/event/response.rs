//! Responses sent back to the driver.
//!
//! Step authors mostly meet [`InvokeResponse`], the value every step returns.

use crate::decimal::{decimal, decimal_text, parse_id, parsed_id};
use crate::event::json::{
    is_plain, json_quoted, json_reading, lemma_plain_text_quoted, member, quote, read_json,
    text_member, text_of, Json,
};
use crate::event::request::{ascii_lowered, names, DecodeError};
use std::fmt::Debug;
use vstd::prelude::*;
use vstd::std_specs::cmp::PartialEqSpec;

verus! {

/// One capture group of a matched step: its text and the byte offset at which
/// it starts. Both are `None` for a group that took no part in the match.
#[derive(Eq, PartialEq, Clone, Debug)]
pub struct StepArg {
    pub val: Option<String>,
    pub pos: Option<u32>,
}

/// Mathematical model of a [`StepArg`].
pub struct StepArgView {
    pub val: Option<Seq<char>>,
    pub pos: Option<u32>,
}

impl View for StepArg {
    type V = StepArgView;

    open spec fn view(&self) -> StepArgView {
        StepArgView {
            val: match self.val {
                Some(v) => Some(v@),
                None => None,
            },
            pos: self.pos,
        }
    }
}

/// One candidate step definition for a step text.
#[derive(Eq, PartialEq, Clone, Debug)]
pub struct Step {
    pub id: String,
    pub args: Vec<StepArg>,
    pub source: String,
}

/// Mathematical model of a [`Step`].
pub struct StepView {
    pub id: Seq<char>,
    pub args: Seq<StepArgView>,
    pub source: Seq<char>,
}

/// The models of a sequence of capture records.
pub open spec fn step_args_view(args: Seq<StepArg>) -> Seq<StepArgView> {
    args.map_values(|a: StepArg| a@)
}

/// The models of a sequence of candidate steps.
pub open spec fn steps_view(steps: Seq<Step>) -> Seq<StepView> {
    steps.map_values(|s: Step| s@)
}

impl View for Step {
    type V = StepView;

    open spec fn view(&self) -> StepView {
        StepView { id: self.id@, args: step_args_view(self.args@), source: self.source@ }
    }
}

/// Answer to a match request.
#[derive(Eq, PartialEq, Clone, Debug)]
pub enum StepMatchesResponse {
    NoMatch,
    Match(Vec<Step>),
}

/// Mathematical model of a [`StepMatchesResponse`].
pub enum StepMatchesResponseView {
    NoMatch,
    Match(Seq<StepView>),
}

impl View for StepMatchesResponse {
    type V = StepMatchesResponseView;

    open spec fn view(&self) -> StepMatchesResponseView {
        match self {
            StepMatchesResponse::NoMatch => StepMatchesResponseView::NoMatch,
            StepMatchesResponse::Match(steps) => StepMatchesResponseView::Match(steps_view(steps@)),
        }
    }
}

/// What a failed step reports.
#[derive(Eq, PartialEq, Clone, Debug)]
pub struct FailMessage {
    pub message: String,
    pub exception: String,
}

/// Mathematical model of a [`FailMessage`].
pub struct FailMessageView {
    pub message: Seq<char>,
    pub exception: Seq<char>,
}

impl View for FailMessage {
    type V = FailMessageView;

    open spec fn view(&self) -> FailMessageView {
        FailMessageView { message: self.message@, exception: self.exception@ }
    }
}

impl FailMessage {
    /// A failure with the given message and an empty exception name.
    pub fn new(str: String) -> (r: FailMessage)
        ensures
            r.message == str,
            r.exception@ == Seq::<char>::empty(),
    {
        FailMessage { message: str, exception: String::new() }
    }
}

/// The possible outcomes of a step invocation.
#[derive(Eq, PartialEq, Clone, Debug)]
pub enum InvokeResponse {
    Pending(String),
    Success,
    Fail(FailMessage),
}

/// Mathematical model of an [`InvokeResponse`].
pub enum InvokeResponseView {
    Pending(Seq<char>),
    Success,
    Fail(FailMessageView),
}

impl View for InvokeResponse {
    type V = InvokeResponseView;

    open spec fn view(&self) -> InvokeResponseView {
        match self {
            InvokeResponse::Pending(m) => InvokeResponseView::Pending(m@),
            InvokeResponse::Success => InvokeResponseView::Success,
            InvokeResponse::Fail(f) => InvokeResponseView::Fail(f@),
        }
    }
}

/// The model of a failure that carries `message` and no exception name.
pub open spec fn failure(message: Seq<char>) -> InvokeResponseView {
    InvokeResponseView::Fail(FailMessageView { message, exception: Seq::<char>::empty() })
}

/// The message of [`InvokeResponse::check`] when the condition is false.
pub open spec fn check_failed_text() -> Seq<char> {
    "invoke response check failed"@
}

/// The message of [`InvokeResponse::check_eq`] for two rendered values.
pub open spec fn not_equal_text(first: Seq<char>, second: Seq<char>) -> Seq<char> {
    "Value ["@ + first + "] was not equal to ["@ + second + "]"@
}

/// The message of [`InvokeResponse::check_not_eq`] for two rendered values.
pub open spec fn equal_text(first: Seq<char>, second: Seq<char>) -> Seq<char> {
    "Value ["@ + first + "] was equal to ["@ + second + "]"@
}

/// Renders a value with the formatter of `Debug`. Nothing is claimed about
/// the text: it is whatever the type's `Debug` impl writes.
#[verifier::external_body]
fn debug_text<T: Debug>(value: &T) -> (r: String) {
    format!("{:?}", value)
}

impl InvokeResponse {
    /// A pending outcome with a message.
    pub fn pending_from_str(val: &str) -> (r: InvokeResponse)
        ensures
            r@ == InvokeResponseView::Pending(val@),
    {
        InvokeResponse::Pending(val.to_owned())
    }

    /// A pending outcome with a message.
    pub fn pending(val: &str) -> (r: InvokeResponse)
        ensures
            r@ == InvokeResponseView::Pending(val@),
    {
        InvokeResponse::Pending(val.to_owned())
    }

    /// A failed outcome with a message and no exception name.
    pub fn fail_from_str(val: &str) -> (r: InvokeResponse)
        ensures
            r@ == failure(val@),
    {
        InvokeResponse::Fail(FailMessage::new(val.to_owned()))
    }

    /// A failed outcome with a message and no exception name.
    pub fn with_fail_message(val: &str) -> (r: InvokeResponse)
        ensures
            r@ == failure(val@),
    {
        InvokeResponse::Fail(FailMessage::new(val.to_owned()))
    }

    /// A failed outcome with a message and no exception name.
    pub fn fail(val: &str) -> (r: InvokeResponse)
        ensures
            r@ == failure(val@),
    {
        InvokeResponse::Fail(FailMessage::new(val.to_owned()))
    }

    /// The failure reported when two values that should be equal, and whose
    /// renderings are `first` and `second`, differ.
    pub fn not_equal_failure(first: &str, second: &str) -> (r: InvokeResponse)
        ensures
            r@ == failure(not_equal_text(first@, second@)),
    {
        let mut text = "Value [".to_owned();
        text.append(first);
        text.append("] was not equal to [");
        text.append(second);
        text.append("]");
        InvokeResponse::Fail(FailMessage::new(text))
    }

    /// The failure reported when two values that should differ, and whose
    /// renderings are `first` and `second`, are equal.
    pub fn equal_failure(first: &str, second: &str) -> (r: InvokeResponse)
        ensures
            r@ == failure(equal_text(first@, second@)),
    {
        let mut text = "Value [".to_owned();
        text.append(first);
        text.append("] was equal to [");
        text.append(second);
        text.append("]");
        InvokeResponse::Fail(FailMessage::new(text))
    }

    /// Success when the two values are equal; otherwise the failure of
    /// [`InvokeResponse::not_equal_failure`] for their `Debug` renderings.
    pub fn check_eq<T: PartialEq + Debug>(first: T, second: T) -> (r: InvokeResponse)
        ensures
            T::obeys_eq_spec() ==> (r@ == InvokeResponseView::Success <==> first.eq_spec(&second)),
            r@ != InvokeResponseView::Success ==> exists|a: Seq<char>, b: Seq<char>|
                r@ == failure(not_equal_text(a, b)),
    {
        if first == second {
            InvokeResponse::Success
        } else {
            let a = debug_text(&first);
            let b = debug_text(&second);
            InvokeResponse::not_equal_failure(a.as_str(), b.as_str())
        }
    }

    /// Success when the two values differ; otherwise the failure of
    /// [`InvokeResponse::equal_failure`] for their `Debug` renderings.
    pub fn check_not_eq<T: PartialEq + Debug>(first: T, second: T) -> (r: InvokeResponse)
        ensures
            T::obeys_eq_spec() ==> (r@ == InvokeResponseView::Success <==> !first.eq_spec(&second)),
            r@ != InvokeResponseView::Success ==> exists|a: Seq<char>, b: Seq<char>|
                r@ == failure(equal_text(a, b)),
    {
        if first == second {
            let a = debug_text(&first);
            let b = debug_text(&second);
            InvokeResponse::equal_failure(a.as_str(), b.as_str())
        } else {
            InvokeResponse::Success
        }
    }

    /// Success when `b` holds, a fixed failure otherwise.
    pub fn check(b: bool) -> (r: InvokeResponse)
        ensures
            b ==> r@ == InvokeResponseView::Success,
            !b ==> r@ == failure(check_failed_text()),
    {
        if b {
            InvokeResponse::Success
        } else {
            InvokeResponse::fail_from_str("invoke response check failed")
        }
    }

    /// Success when `b` holds, a failure with `fail_msg` otherwise.
    pub fn expect(b: bool, fail_msg: &str) -> (r: InvokeResponse)
        ensures
            b ==> r@ == InvokeResponseView::Success,
            !b ==> r@ == failure(fail_msg@),
    {
        if b {
            InvokeResponse::Success
        } else {
            InvokeResponse::fail_from_str(fail_msg)
        }
    }

    /// "And" of two outcomes: the first one that is not a success.
    pub fn and(self, other: InvokeResponse) -> (r: InvokeResponse)
        ensures
            r == (if self is Success { other } else { self }),
    {
        match self {
            InvokeResponse::Success => other,
            _ => self,
        }
    }

    /// "Or" of two outcomes: the first one unless it is not a success.
    pub fn or(self, other: InvokeResponse) -> (r: InvokeResponse)
        ensures
            r == (if self is Success { self } else { other }),
    {
        match self {
            InvokeResponse::Fail(_) | InvokeResponse::Pending(_) => other,
            _ => self,
        }
    }
}

/// Every response the host can give.
#[derive(Eq, PartialEq, Clone, Debug)]
pub enum Response {
    StepMatches(StepMatchesResponse),
    Invoke(InvokeResponse),
    BeginScenario,
    EndScenario,
    SnippetText(String),
}

/// Mathematical model of a [`Response`].
pub enum ResponseView {
    StepMatches(StepMatchesResponseView),
    Invoke(InvokeResponseView),
    BeginScenario,
    EndScenario,
    SnippetText(Seq<char>),
}

impl View for Response {
    type V = ResponseView;

    open spec fn view(&self) -> ResponseView {
        match self {
            Response::StepMatches(m) => ResponseView::StepMatches(m@),
            Response::Invoke(i) => ResponseView::Invoke(i@),
            Response::BeginScenario => ResponseView::BeginScenario,
            Response::EndScenario => ResponseView::EndScenario,
            Response::SnippetText(t) => ResponseView::SnippetText(t@),
        }
    }
}

/// The JSON of an optional text: a quoted string, or `null`.
pub open spec fn quoted_or_null(text: Option<Seq<char>>) -> Seq<char> {
    match text {
        Some(t) => json_quoted(t),
        None => "null"@,
    }
}

/// The JSON of an optional offset: a decimal number, or `null`.
pub open spec fn number_or_null(n: Option<u32>) -> Seq<char> {
    match n {
        Some(v) => decimal_text(v as nat),
        None => "null"@,
    }
}

/// The JSON of a capture record: the members `val` and `pos`, in that order.
pub open spec fn step_arg_text(arg: StepArgView) -> Seq<char> {
    "{\"val\":"@ + quoted_or_null(arg.val) + ",\"pos\":"@ + number_or_null(arg.pos) + "}"@
}

/// The JSON of capture records, separated by commas.
pub open spec fn step_args_text(args: Seq<StepArgView>) -> Seq<char>
    decreases args.len(),
{
    if args.len() == 0 {
        Seq::empty()
    } else if args.len() == 1 {
        step_arg_text(args[0])
    } else {
        step_args_text(args.drop_last()) + ","@ + step_arg_text(args.last())
    }
}

/// The JSON of a candidate step: the members `id`, `args` and `source`, in
/// that order.
pub open spec fn step_text(step: StepView) -> Seq<char> {
    "{\"id\":"@ + json_quoted(step.id) + ",\"args\":["@ + step_args_text(step.args)
        + "],\"source\":"@ + json_quoted(step.source) + "}"@
}

/// The JSON of candidate steps, separated by commas.
pub open spec fn steps_text(steps: Seq<StepView>) -> Seq<char>
    decreases steps.len(),
{
    if steps.len() == 0 {
        Seq::empty()
    } else if steps.len() == 1 {
        step_text(steps[0])
    } else {
        steps_text(steps.drop_last()) + ","@ + step_text(steps.last())
    }
}

/// The line that answers the driver: a JSON array that starts with the
/// verdict and, where there is one, goes on with its payload.
pub open spec fn response_text(response: ResponseView) -> Seq<char> {
    match response {
        ResponseView::StepMatches(StepMatchesResponseView::NoMatch) => "[\"success\",[]]"@,
        ResponseView::StepMatches(StepMatchesResponseView::Match(steps)) => "[\"success\",["@
            + steps_text(steps) + "]]"@,
        ResponseView::Invoke(InvokeResponseView::Pending(message)) => "[\"pending\","@
            + json_quoted(message) + "]"@,
        ResponseView::Invoke(InvokeResponseView::Success) => "[\"success\"]"@,
        ResponseView::Invoke(InvokeResponseView::Fail(fail)) => "[\"fail\",{\"message\":"@
            + json_quoted(fail.message) + ",\"exception\":"@ + json_quoted(fail.exception)
            + "}]"@,
        ResponseView::BeginScenario => "[\"success\"]"@,
        ResponseView::EndScenario => "[\"success\"]"@,
        ResponseView::SnippetText(text) => "[\"success\","@ + json_quoted(text) + "]"@,
    }
}

impl StepArg {
    /// Writes the capture record as JSON.
    pub fn to_json(&self) -> (r: String)
        ensures
            r@ == step_arg_text(self@),
    {
        let mut text = "{\"val\":".to_owned();
        match &self.val {
            Some(v) => {
                let q = quote(v.as_str());
                text.append(q.as_str());
            },
            None => {
                text.append("null");
            },
        }
        text.append(",\"pos\":");
        match self.pos {
            Some(p) => {
                let d = decimal(p as u64);
                text.append(d.as_str());
            },
            None => {
                text.append("null");
            },
        }
        text.append("}");
        text
    }
}

/// Writes capture records as JSON, separated by commas.
pub fn step_args_to_json(args: &Vec<StepArg>) -> (r: String)
    ensures
        r@ == step_args_text(step_args_view(args@)),
{
    let ghost views = step_args_view(args@);
    let mut text = String::new();
    let mut i: usize = 0;
    assert(views.take(0) =~= Seq::<StepArgView>::empty());
    while i < args.len()
        invariant
            i <= args@.len(),
            views == step_args_view(args@),
            text@ == step_args_text(views.take(i as int)),
        decreases args@.len() - i,
    {
        let item = args[i].to_json();
        assert(views.take(i + 1).drop_last() =~= views.take(i as int));
        assert(views.take(i + 1).last() == args@[i as int]@);
        if i > 0 {
            text.append(",");
        }
        text.append(item.as_str());
        assert(text@ =~= step_args_text(views.take(i + 1)));
        i += 1;
    }
    assert(views.take(args@.len() as int) =~= views);
    text
}

impl Step {
    /// Writes the candidate step as JSON.
    pub fn to_json(&self) -> (r: String)
        ensures
            r@ == step_text(self@),
    {
        let mut text = "{\"id\":".to_owned();
        let id = quote(self.id.as_str());
        text.append(id.as_str());
        text.append(",\"args\":[");
        let args = step_args_to_json(&self.args);
        text.append(args.as_str());
        text.append("],\"source\":");
        let source = quote(self.source.as_str());
        text.append(source.as_str());
        text.append("}");
        text
    }
}

/// Writes candidate steps as JSON, separated by commas.
pub fn steps_to_json(steps: &Vec<Step>) -> (r: String)
    ensures
        r@ == steps_text(steps_view(steps@)),
{
    let ghost views = steps_view(steps@);
    let mut text = String::new();
    let mut i: usize = 0;
    assert(views.take(0) =~= Seq::<StepView>::empty());
    while i < steps.len()
        invariant
            i <= steps@.len(),
            views == steps_view(steps@),
            text@ == steps_text(views.take(i as int)),
        decreases steps@.len() - i,
    {
        let item = steps[i].to_json();
        assert(views.take(i + 1).drop_last() =~= views.take(i as int));
        assert(views.take(i + 1).last() == steps@[i as int]@);
        if i > 0 {
            text.append(",");
        }
        text.append(item.as_str());
        assert(text@ =~= steps_text(views.take(i + 1)));
        i += 1;
    }
    assert(views.take(steps@.len() as int) =~= views);
    text
}

/// Writes a response as the line the driver expects, without the newline.
pub fn encode_response(response: &Response) -> (r: String)
    ensures
        r@ == response_text(response@),
{
    match response {
        Response::StepMatches(StepMatchesResponse::NoMatch) => "[\"success\",[]]".to_owned(),
        Response::StepMatches(StepMatchesResponse::Match(steps)) => {
            let mut text = "[\"success\",[".to_owned();
            let body = steps_to_json(steps);
            text.append(body.as_str());
            text.append("]]");
            text
        },
        Response::Invoke(InvokeResponse::Pending(message)) => {
            let mut text = "[\"pending\",".to_owned();
            let body = quote(message.as_str());
            text.append(body.as_str());
            text.append("]");
            text
        },
        Response::Invoke(InvokeResponse::Success) => "[\"success\"]".to_owned(),
        Response::Invoke(InvokeResponse::Fail(fail)) => {
            let mut text = "[\"fail\",{\"message\":".to_owned();
            let message = quote(fail.message.as_str());
            text.append(message.as_str());
            text.append(",\"exception\":");
            let exception = quote(fail.exception.as_str());
            text.append(exception.as_str());
            text.append("}]");
            text
        },
        Response::BeginScenario => "[\"success\"]".to_owned(),
        Response::EndScenario => "[\"success\"]".to_owned(),
        Response::SnippetText(snippet) => {
            let mut text = "[\"success\",".to_owned();
            let body = quote(snippet.as_str());
            text.append(body.as_str());
            text.append("]");
            text
        },
    }
}

/// The optional text that a JSON value stands for: a string, or `null` for
/// none.
pub open spec fn optional_text(j: Json) -> Option<Option<Seq<char>>> {
    match j {
        Json::Text(s) => Some(Some(s@)),
        Json::Null => Some(None),
        _ => None,
    }
}

/// The optional offset that a JSON value stands for: a number that fits in
/// 32 bits, or `null` for none.
pub open spec fn optional_offset(j: Json) -> Option<Option<u32>> {
    match j {
        Json::Number(n) => match parsed_id(n@) {
            Some(v) => Some(Some(v)),
            None => None,
        },
        Json::Null => Some(None),
        _ => None,
    }
}

/// The capture record that a JSON object with the members `val` and `pos`
/// stands for.
pub open spec fn step_arg_of(j: Json) -> Option<StepArgView> {
    match (member(j, "val"@), member(j, "pos"@)) {
        (Some(v), Some(p)) => match (optional_text(v), optional_offset(p)) {
            (Some(val), Some(pos)) => Some(StepArgView { val, pos }),
            _ => None,
        },
        _ => None,
    }
}

/// True when every value of the sequence stands for a capture record.
pub open spec fn all_step_args(items: Seq<Json>) -> bool {
    forall|i: int| 0 <= i < items.len() ==> step_arg_of(#[trigger] items[i]) is Some
}

/// The capture records that a JSON array stands for.
pub open spec fn step_args_of(j: Json) -> Option<Seq<StepArgView>> {
    match j {
        Json::Array(items) => if all_step_args(items@) {
            Some(Seq::new(items@.len(), |i: int| step_arg_of(items@[i]).unwrap()))
        } else {
            None
        },
        _ => None,
    }
}

/// The candidate step that a JSON object with the members `id`, `args` and
/// `source` stands for.
pub open spec fn step_of(j: Json) -> Option<StepView> {
    match (text_member(j, "id"@), member(j, "args"@), text_member(j, "source"@)) {
        (Some(id), Some(a), Some(source)) => match step_args_of(a) {
            Some(args) => Some(StepView { id, args, source }),
            None => None,
        },
        _ => None,
    }
}

/// True when every value of the sequence stands for a candidate step.
pub open spec fn all_steps(items: Seq<Json>) -> bool {
    forall|i: int| 0 <= i < items.len() ==> step_of(#[trigger] items[i]) is Some
}

/// The failure that a JSON object with the members `message` and
/// `exception` stands for.
pub open spec fn fail_of(j: Json) -> Option<FailMessageView> {
    match (text_member(j, "message"@), text_member(j, "exception"@)) {
        (Some(message), Some(exception)) => Some(FailMessageView { message, exception }),
        _ => None,
    }
}

/// The response that a successful verdict and its payload stand for: a text
/// is a snippet, an empty array is no match, an array of steps is a match.
pub open spec fn success_of(payload: Json) -> Option<ResponseView> {
    match payload {
        Json::Text(text) => Some(ResponseView::SnippetText(text@)),
        Json::Array(items) => if items@.len() == 0 {
            Some(ResponseView::StepMatches(StepMatchesResponseView::NoMatch))
        } else if all_steps(items@) {
            Some(
                ResponseView::StepMatches(
                    StepMatchesResponseView::Match(
                        Seq::new(items@.len(), |i: int| step_of(items@[i]).unwrap()),
                    ),
                ),
            )
        } else {
            None
        },
        _ => None,
    }
}

/// The response that a verdict and the elements after it stand for. A bare
/// success is read as the success of an invocation: the two scenario
/// boundaries are answered with the same line.
pub open spec fn verdict_response(verdict: Seq<char>, rest: Seq<Json>) -> Result<
    ResponseView,
    DecodeError,
> {
    if verdict == "success"@ {
        if rest.len() == 0 {
            Ok(ResponseView::Invoke(InvokeResponseView::Success))
        } else if rest.len() == 1 {
            match success_of(rest[0]) {
                Some(r) => Ok(r),
                None => Err(DecodeError::BadPayload),
            }
        } else {
            Err(DecodeError::BadPayload)
        }
    } else if verdict == "pending"@ {
        if rest.len() == 1 {
            match text_of(rest[0]) {
                Some(message) => Ok(ResponseView::Invoke(InvokeResponseView::Pending(message))),
                None => Err(DecodeError::BadPayload),
            }
        } else {
            Err(DecodeError::BadPayload)
        }
    } else if verdict == "fail"@ {
        if rest.len() == 1 {
            match fail_of(rest[0]) {
                Some(fail) => Ok(ResponseView::Invoke(InvokeResponseView::Fail(fail))),
                None => Err(DecodeError::BadPayload),
            }
        } else {
            Err(DecodeError::BadPayload)
        }
    } else {
        Err(DecodeError::UnknownCommand)
    }
}

/// The response that a JSON value stands for: an array whose first element
/// is the verdict, in any case, and whose second element, if any, is the
/// payload.
pub open spec fn response_of(j: Json) -> Result<ResponseView, DecodeError> {
    match j {
        Json::Array(items) => if items@.len() == 0 {
            Err(DecodeError::NoCommand)
        } else {
            match items@[0] {
                Json::Text(tag) => verdict_response(ascii_lowered(tag@), items@.skip(1)),
                _ => Err(DecodeError::NoCommand),
            }
        },
        _ => Err(DecodeError::NoCommand),
    }
}

/// The response that a line of text stands for.
pub open spec fn response_decoding(text: Seq<char>) -> Result<ResponseView, DecodeError> {
    match json_reading(text) {
        Some(j) => response_of(j),
        None => Err(DecodeError::Syntax),
    }
}

/// True when a decoded response, or the error in its place, is the one the
/// model gives.
pub open spec fn response_agrees(
    r: Result<Response, DecodeError>,
    model: Result<ResponseView, DecodeError>,
) -> bool {
    match model {
        Ok(v) => r is Ok && r->Ok_0@ == v,
        Err(e) => r == Err::<Response, DecodeError>(e),
    }
}

/// The capture record that a JSON value stands for.
pub fn read_step_arg(j: &Json) -> (r: Option<StepArg>)
    ensures
        match r {
            Some(a) => step_arg_of(*j) == Some(a@),
            None => step_arg_of(*j) is None,
        },
{
    let val = match j.get("val") {
        Some(Json::Text(s)) => Some(Some(s.clone())),
        Some(Json::Null) => Some(None),
        _ => None,
    };
    let pos = match j.get("pos") {
        Some(Json::Number(n)) => match parse_id(n.as_str()) {
            Some(v) => Some(Some(v)),
            None => None,
        },
        Some(Json::Null) => Some(None),
        _ => None,
    };
    match (val, pos) {
        (Some(val), Some(pos)) => Some(StepArg { val, pos }),
        _ => None,
    }
}

/// The capture records that a JSON array stands for.
pub fn read_step_args(j: &Json) -> (r: Option<Vec<StepArg>>)
    ensures
        match r {
            Some(v) => step_args_of(*j) == Some(step_args_view(v@)),
            None => step_args_of(*j) is None,
        },
{
    match j {
        Json::Array(items) => {
            let mut out: Vec<StepArg> = Vec::new();
            let mut i: usize = 0;
            while i < items.len()
                invariant
                    *j == Json::Array(*items),
                    i <= items@.len(),
                    out@.len() == i,
                    forall|k: int| 0 <= k < i ==> step_arg_of(#[trigger] items@[k]) is Some,
                    forall|k: int|
                        0 <= k < i ==> (#[trigger] out@[k])@ == step_arg_of(items@[k]).unwrap(),
                decreases items@.len() - i,
            {
                match read_step_arg(&items[i]) {
                    Some(a) => {
                        out.push(a);
                    },
                    None => {
                        assert(step_arg_of(items@[i as int]) is None);
                        assert(!all_step_args(items@));
                        return None;
                    },
                }
                i += 1;
            }
            assert(step_args_view(out@) =~= Seq::new(
                items@.len(),
                |i: int| step_arg_of(items@[i]).unwrap(),
            ));
            Some(out)
        },
        _ => None,
    }
}

/// The candidate step that a JSON value stands for.
pub fn read_step(j: &Json) -> (r: Option<Step>)
    ensures
        match r {
            Some(s) => step_of(*j) == Some(s@),
            None => step_of(*j) is None,
        },
{
    let id = j.get_text("id");
    let args = match j.get("args") {
        Some(a) => read_step_args(a),
        None => None,
    };
    let source = j.get_text("source");
    match (id, args, source) {
        (Some(id), Some(args), Some(source)) => Some(Step { id, args, source }),
        _ => None,
    }
}

/// The response that a successful verdict and its payload stand for.
pub fn read_success(payload: &Json) -> (r: Option<Response>)
    ensures
        match r {
            Some(v) => success_of(*payload) == Some(v@),
            None => success_of(*payload) is None,
        },
{
    match payload {
        Json::Text(text) => Some(Response::SnippetText(text.clone())),
        Json::Array(items) => {
            if items.len() == 0 {
                return Some(Response::StepMatches(StepMatchesResponse::NoMatch));
            }
            let mut out: Vec<Step> = Vec::new();
            let mut i: usize = 0;
            while i < items.len()
                invariant
                    *payload == Json::Array(*items),
                    items@.len() > 0,
                    i <= items@.len(),
                    out@.len() == i,
                    forall|k: int| 0 <= k < i ==> step_of(#[trigger] items@[k]) is Some,
                    forall|k: int| 0 <= k < i ==> (#[trigger] out@[k])@ == step_of(items@[k]).unwrap(),
                decreases items@.len() - i,
            {
                match read_step(&items[i]) {
                    Some(s) => {
                        out.push(s);
                    },
                    None => {
                        assert(step_of(items@[i as int]) is None);
                        assert(!all_steps(items@));
                        return None;
                    },
                }
                i += 1;
            }
            assert(steps_view(out@) =~= Seq::new(
                items@.len(),
                |i: int| step_of(items@[i]).unwrap(),
            ));
            Some(Response::StepMatches(StepMatchesResponse::Match(out)))
        },
        _ => None,
    }
}

/// The failure that a JSON value stands for.
pub fn read_fail(j: &Json) -> (r: Option<FailMessage>)
    ensures
        match r {
            Some(f) => fail_of(*j) == Some(f@),
            None => fail_of(*j) is None,
        },
{
    match (j.get_text("message"), j.get_text("exception")) {
        (Some(message), Some(exception)) => Some(FailMessage { message, exception }),
        _ => None,
    }
}

/// The response that a JSON value stands for, or the reason it is none.
pub fn response_from_json(j: &Json) -> (r: Result<Response, DecodeError>)
    ensures
        response_agrees(r, response_of(*j)),
{
    match j {
        Json::Array(items) => {
            if items.len() == 0 {
                return Err(DecodeError::NoCommand);
            }
            match &items[0] {
                Json::Text(tag) => {
                    let ghost rest = items@.skip(1);
                    if items.len() >= 2 {
                        assert(rest[0] == items@[1]);
                    }
                    let found = if names(tag.as_str(), "success") {
                        if items.len() == 1 {
                            Some(Response::Invoke(InvokeResponse::Success))
                        } else if items.len() == 2 {
                            read_success(&items[1])
                        } else {
                            None
                        }
                    } else if names(tag.as_str(), "pending") {
                        if items.len() == 2 {
                            match items[1].as_text() {
                                Some(message) => Some(
                                    Response::Invoke(InvokeResponse::Pending(message)),
                                ),
                                None => None,
                            }
                        } else {
                            None
                        }
                    } else if names(tag.as_str(), "fail") {
                        if items.len() == 2 {
                            match read_fail(&items[1]) {
                                Some(fail) => Some(Response::Invoke(InvokeResponse::Fail(fail))),
                                None => None,
                            }
                        } else {
                            None
                        }
                    } else {
                        return Err(DecodeError::UnknownCommand);
                    };
                    match found {
                        Some(response) => Ok(response),
                        None => Err(DecodeError::BadPayload),
                    }
                },
                _ => Err(DecodeError::NoCommand),
            }
        },
        _ => Err(DecodeError::NoCommand),
    }
}

/// Reads a response from one line of the wire.
pub fn decode_response(line: &str) -> (r: Result<Response, DecodeError>)
    ensures
        response_agrees(r, response_decoding(line@)),
{
    match read_json(line) {
        Some(j) => response_from_json(&j),
        None => Err(DecodeError::Syntax),
    }
}

/// The line of a failure whose message is made of plain characters and
/// whose exception is empty: the message stands in the line as it is.
pub proof fn lemma_plain_failure_line(message: Seq<char>)
    requires
        forall|i: int| 0 <= i < message.len() ==> is_plain(#[trigger] message[i]),
    ensures
        response_text(ResponseView::Invoke(failure(message))) == "[\"fail\",{\"message\":\""@
            + message + "\",\"exception\":\"\"}]"@,
{
    reveal_strlit("[\"fail\",{\"message\":");
    reveal_strlit(",\"exception\":");
    reveal_strlit("}]");
    reveal_strlit("[\"fail\",{\"message\":\"");
    reveal_strlit("\",\"exception\":\"\"}]");
    lemma_plain_text_quoted(message);
    lemma_plain_text_quoted(Seq::<char>::empty());
    let empty = Seq::<char>::empty();
    assert(json_quoted(empty) =~= seq!['"', '"']);
    assert(json_quoted(message) =~= seq!['"'] + message + seq!['"']);
    assert(response_text(ResponseView::Invoke(failure(message))) =~= "[\"fail\",{\"message\":\""@
        + message + "\",\"exception\":\"\"}]"@);
}

/// The line of a pending outcome whose message is made of plain
/// characters: the message stands in the line as it is.
pub proof fn lemma_plain_pending_line(message: Seq<char>)
    requires
        forall|i: int| 0 <= i < message.len() ==> is_plain(#[trigger] message[i]),
    ensures
        response_text(ResponseView::Invoke(InvokeResponseView::Pending(message)))
            == "[\"pending\",\""@ + message + "\"]"@,
{
    reveal_strlit("[\"pending\",");
    reveal_strlit("]");
    reveal_strlit("[\"pending\",\"");
    reveal_strlit("\"]");
    lemma_plain_text_quoted(message);
    assert(response_text(ResponseView::Invoke(InvokeResponseView::Pending(message)))
        =~= "[\"pending\",\""@ + message + "\"]"@);
}

} // verus!
