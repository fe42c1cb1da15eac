//! Requests made by the driver, and how they are read from a line of JSON.
//!
//! Step authors meet [`InvokeArgument`] when they call one step from another
//! with a table or a doc string.

use crate::event::json::{
    join, joined, json_quoted, json_reading, member, quote, quote_texts, quoted_texts, read_json,
    table_view, text_member, texts_of, texts_view, Json,
};
use crate::event::response::StepArg;
use vstd::prelude::*;

verus! {

/// Asks which step definitions match a step text.
#[derive(Eq, PartialEq, Clone, Debug)]
pub struct StepMatchesRequest {
    pub name_to_match: String,
}

/// Asks to run the step definition with the given id.
#[derive(Eq, PartialEq, Clone, Debug)]
pub struct InvokeRequest {
    pub id: String,
    pub args: Vec<InvokeArgument>,
}

/// Announces the start of a scenario and its tags.
#[derive(Eq, PartialEq, Clone, Debug)]
pub struct BeginScenarioRequest {
    pub tags: Vec<String>,
}

/// Announces the end of a scenario.
#[derive(Eq, PartialEq, Clone, Debug)]
pub struct EndScenarioRequest {
    pub tags: Vec<String>,
}

/// Asks for a snippet that defines a missing step.
#[derive(Eq, PartialEq, Clone, Debug)]
pub struct SnippetTextRequest {
    pub step_keyword: String,
    pub multiline_arg_class: String,
    pub step_name: String,
}

/// A value handed to a step: a captured text or doc string, an absent
/// optional capture, or a table of strings.
#[derive(Eq, PartialEq, Clone, Debug)]
pub enum InvokeArgument {
    String(String),
    Absent,
    Table(Vec<Vec<String>>),
}

/// Mathematical model of an [`InvokeArgument`].
pub enum InvokeArgumentView {
    Text(Seq<char>),
    Absent,
    Table(Seq<Seq<Seq<char>>>),
}

impl View for InvokeArgument {
    type V = InvokeArgumentView;

    open spec fn view(&self) -> InvokeArgumentView {
        match self {
            InvokeArgument::String(s) => InvokeArgumentView::Text(s@),
            InvokeArgument::Absent => InvokeArgumentView::Absent,
            InvokeArgument::Table(rows) => InvokeArgumentView::Table(table_view(rows@)),
        }
    }
}

/// The models of a sequence of arguments.
pub open spec fn arguments_view(args: Seq<InvokeArgument>) -> Seq<InvokeArgumentView> {
    args.map_values(|a: InvokeArgument| a@)
}

impl InvokeArgument {
    /// The argument that carries the given text.
    pub fn from_str(arg: &str) -> (r: InvokeArgument)
        ensures
            r@ == InvokeArgumentView::Text(arg@),
    {
        InvokeArgument::String(arg.to_owned())
    }

    /// The argument for a capture record: its text, or the absent argument
    /// for a group that took no part in the match.
    pub fn from_step_arg(arg: StepArg) -> (r: InvokeArgument)
        ensures
            r == (match arg.val {
                Some(v) => InvokeArgument::String(v),
                None => InvokeArgument::Absent,
            }),
    {
        match arg.val {
            Some(v) => InvokeArgument::String(v),
            None => InvokeArgument::Absent,
        }
    }
}

/// Every request the driver can make.
#[derive(Eq, PartialEq, Clone, Debug)]
pub enum Request {
    StepMatches(StepMatchesRequest),
    Invoke(InvokeRequest),
    BeginScenario(BeginScenarioRequest),
    EndScenario(EndScenarioRequest),
    SnippetText(SnippetTextRequest),
}

/// Mathematical model of a [`Request`].
pub enum RequestView {
    StepMatches { name_to_match: Seq<char> },
    Invoke { id: Seq<char>, args: Seq<InvokeArgumentView> },
    BeginScenario { tags: Seq<Seq<char>> },
    EndScenario { tags: Seq<Seq<char>> },
    SnippetText { step_keyword: Seq<char>, multiline_arg_class: Seq<char>, step_name: Seq<char> },
}

impl View for Request {
    type V = RequestView;

    open spec fn view(&self) -> RequestView {
        match self {
            Request::StepMatches(p) => RequestView::StepMatches { name_to_match: p.name_to_match@ },
            Request::Invoke(p) => RequestView::Invoke { id: p.id@, args: arguments_view(p.args@) },
            Request::BeginScenario(p) => RequestView::BeginScenario { tags: texts_view(p.tags@) },
            Request::EndScenario(p) => RequestView::EndScenario { tags: texts_view(p.tags@) },
            Request::SnippetText(p) => RequestView::SnippetText {
                step_keyword: p.step_keyword@,
                multiline_arg_class: p.multiline_arg_class@,
                step_name: p.step_name@,
            },
        }
    }
}

/// Why a line is not a message of the protocol.
#[derive(Eq, PartialEq, Clone, Copy, Debug)]
pub enum DecodeError {
    /// The line is not JSON.
    Syntax,
    /// The value is not an array that starts with a string.
    NoCommand,
    /// The first element names no command and no verdict.
    UnknownCommand,
    /// The second element is missing, ill-shaped, or followed by more.
    BadPayload,
}

/// The five commands of the protocol.
#[derive(Eq, PartialEq, Clone, Copy, Debug)]
pub enum Command {
    StepMatches,
    Invoke,
    BeginScenario,
    EndScenario,
    SnippetText,
}

/// The lower-case form of an ASCII capital; any other character unchanged.
pub open spec fn lower(c: char) -> char {
    if 'A' <= c && c <= 'Z' {
        (((c as u8) + 32) as u8) as char
    } else {
        c
    }
}

/// A text with its ASCII capitals in lower case.
pub open spec fn ascii_lowered(s: Seq<char>) -> Seq<char> {
    s.map_values(|c: char| lower(c))
}

/// The command that a tag names, whatever the case of its ASCII letters.
pub open spec fn command_of(tag: Seq<char>) -> Option<Command> {
    let name = ascii_lowered(tag);
    if name == "step_matches"@ {
        Some(Command::StepMatches)
    } else if name == "invoke"@ {
        Some(Command::Invoke)
    } else if name == "begin_scenario"@ {
        Some(Command::BeginScenario)
    } else if name == "end_scenario"@ {
        Some(Command::EndScenario)
    } else if name == "snippet_text"@ {
        Some(Command::SnippetText)
    } else {
        None
    }
}

/// True when every value of the sequence is an array of strings.
pub open spec fn all_rows(items: Seq<Json>) -> bool {
    forall|i: int| 0 <= i < items.len() ==> texts_of(#[trigger] items[i]) is Some
}

/// The argument that a JSON value stands for: a string is a text, `null` is
/// the absent argument, an array of arrays of strings is a table.
pub open spec fn argument_of(j: Json) -> Option<InvokeArgumentView> {
    match j {
        Json::Text(s) => Some(InvokeArgumentView::Text(s@)),
        Json::Null => Some(InvokeArgumentView::Absent),
        Json::Array(rows) => if all_rows(rows@) {
            Some(
                InvokeArgumentView::Table(
                    Seq::new(rows@.len(), |i: int| texts_of(rows@[i]).unwrap()),
                ),
            )
        } else {
            None
        },
        _ => None,
    }
}

/// True when every value of the sequence stands for an argument.
pub open spec fn all_arguments(items: Seq<Json>) -> bool {
    forall|i: int| 0 <= i < items.len() ==> argument_of(#[trigger] items[i]) is Some
}

/// The arguments that a JSON array stands for.
pub open spec fn arguments_of(j: Json) -> Option<Seq<InvokeArgumentView>> {
    match j {
        Json::Array(items) => if all_arguments(items@) {
            Some(Seq::new(items@.len(), |i: int| argument_of(items@[i]).unwrap()))
        } else {
            None
        },
        _ => None,
    }
}

/// The tags of a scenario boundary: the member `tags` of the payload.
pub open spec fn tags_of(payload: Json) -> Option<Seq<Seq<char>>> {
    match member(payload, "tags"@) {
        Some(t) => texts_of(t),
        None => None,
    }
}

/// The arguments of an invocation: the member `args` of the payload.
pub open spec fn args_of(payload: Json) -> Option<Seq<InvokeArgumentView>> {
    match member(payload, "args"@) {
        Some(a) => arguments_of(a),
        None => None,
    }
}

/// The request that a command and its parameter object stand for.
pub open spec fn payload_request(command: Command, payload: Json) -> Option<RequestView> {
    match command {
        Command::StepMatches => match text_member(payload, "name_to_match"@) {
            Some(name) => Some(RequestView::StepMatches { name_to_match: name }),
            None => None,
        },
        Command::Invoke => match (text_member(payload, "id"@), args_of(payload)) {
            (Some(id), Some(args)) => Some(RequestView::Invoke { id, args }),
            _ => None,
        },
        Command::BeginScenario => match tags_of(payload) {
            Some(tags) => Some(RequestView::BeginScenario { tags }),
            None => None,
        },
        Command::EndScenario => match tags_of(payload) {
            Some(tags) => Some(RequestView::EndScenario { tags }),
            None => None,
        },
        Command::SnippetText => match (
            text_member(payload, "step_keyword"@),
            text_member(payload, "multiline_arg_class"@),
            text_member(payload, "step_name"@),
        ) {
            (Some(step_keyword), Some(multiline_arg_class), Some(step_name)) => Some(
                RequestView::SnippetText { step_keyword, multiline_arg_class, step_name },
            ),
            _ => None,
        },
    }
}

/// The request that a command without a parameter object stands for: a
/// scenario boundary without tags. The other commands need their parameters.
pub open spec fn bare_request(command: Command) -> Option<RequestView> {
    match command {
        Command::BeginScenario => Some(RequestView::BeginScenario { tags: Seq::empty() }),
        Command::EndScenario => Some(RequestView::EndScenario { tags: Seq::empty() }),
        _ => None,
    }
}

/// The request that a command and the elements after it stand for.
pub open spec fn command_request(command: Command, rest: Seq<Json>) -> Result<
    RequestView,
    DecodeError,
> {
    let found = if rest.len() == 0 {
        bare_request(command)
    } else if rest.len() == 1 {
        payload_request(command, rest[0])
    } else {
        None
    };
    match found {
        Some(r) => Ok(r),
        None => Err(DecodeError::BadPayload),
    }
}

/// The request that a JSON value stands for: an array whose first element
/// names the command and whose second element, if any, holds the parameters.
pub open spec fn request_of(j: Json) -> Result<RequestView, DecodeError> {
    match j {
        Json::Array(items) => if items@.len() == 0 {
            Err(DecodeError::NoCommand)
        } else {
            match items@[0] {
                Json::Text(tag) => match command_of(tag@) {
                    Some(command) => command_request(command, items@.skip(1)),
                    None => Err(DecodeError::UnknownCommand),
                },
                _ => Err(DecodeError::NoCommand),
            }
        },
        _ => Err(DecodeError::NoCommand),
    }
}

/// The request that a line of text stands for.
pub open spec fn decoding(text: Seq<char>) -> Result<RequestView, DecodeError> {
    match json_reading(text) {
        Some(j) => request_of(j),
        None => Err(DecodeError::Syntax),
    }
}

/// True when a decoded request, or the error in its place, is the one the
/// model gives.
pub open spec fn agrees(r: Result<Request, DecodeError>, model: Result<RequestView, DecodeError>) -> bool {
    match model {
        Ok(v) => r is Ok && r->Ok_0@ == v,
        Err(e) => r == Err::<Request, DecodeError>(e),
    }
}

/// The lower-case form of an ASCII capital; any other character unchanged.
pub fn to_lower(c: char) -> (r: char)
    ensures
        r == lower(c),
{
    if 'A' <= c && c <= 'Z' {
        let b: u8 = c as u8;
        (b + 32) as char
    } else {
        c
    }
}

/// True when `tag`, with its ASCII capitals in lower case, is `name`.
pub fn names(tag: &str, name: &str) -> (r: bool)
    ensures
        r == (ascii_lowered(tag@) == name@),
{
    let n = name.unicode_len();
    if tag.unicode_len() != n {
        return false;
    }
    let mut i: usize = 0;
    while i < n
        invariant
            i <= n,
            n == name@.len(),
            n == tag@.len(),
            forall|k: int| 0 <= k < i ==> lower(#[trigger] tag@[k]) == name@[k],
        decreases n - i,
    {
        if to_lower(tag.get_char(i)) != name.get_char(i) {
            assert(ascii_lowered(tag@)[i as int] != name@[i as int]);
            return false;
        }
        i += 1;
    }
    assert(ascii_lowered(tag@) =~= name@);
    true
}

/// The command that a tag names, whatever the case of its ASCII letters.
pub fn read_command(tag: &str) -> (r: Option<Command>)
    ensures
        r == command_of(tag@),
{
    if names(tag, "step_matches") {
        Some(Command::StepMatches)
    } else if names(tag, "invoke") {
        Some(Command::Invoke)
    } else if names(tag, "begin_scenario") {
        Some(Command::BeginScenario)
    } else if names(tag, "end_scenario") {
        Some(Command::EndScenario)
    } else if names(tag, "snippet_text") {
        Some(Command::SnippetText)
    } else {
        None
    }
}

/// The argument that a JSON value stands for.
pub fn read_argument(j: &Json) -> (r: Option<InvokeArgument>)
    ensures
        match r {
            Some(a) => argument_of(*j) == Some(a@),
            None => argument_of(*j) is None,
        },
{
    match j {
        Json::Text(s) => Some(InvokeArgument::String(s.clone())),
        Json::Null => Some(InvokeArgument::Absent),
        Json::Array(rows) => {
            let mut table: Vec<Vec<String>> = Vec::new();
            let mut i: usize = 0;
            while i < rows.len()
                invariant
                    *j == Json::Array(*rows),
                    i <= rows@.len(),
                    table@.len() == i,
                    forall|k: int| 0 <= k < i ==> texts_of(#[trigger] rows@[k]) is Some,
                    forall|k: int|
                        0 <= k < i ==> texts_view((#[trigger] table@[k])@) == texts_of(
                            rows@[k],
                        ).unwrap(),
                decreases rows@.len() - i,
            {
                match rows[i].as_texts() {
                    Some(row) => {
                        table.push(row);
                    },
                    None => {
                        assert(texts_of(rows@[i as int]) is None);
                        assert(!all_rows(rows@));
                        return None;
                    },
                }
                i += 1;
            }
            assert(table_view(table@) =~= Seq::new(
                rows@.len(),
                |i: int| texts_of(rows@[i]).unwrap(),
            ));
            Some(InvokeArgument::Table(table))
        },
        _ => None,
    }
}

/// The arguments that a JSON array stands for.
pub fn read_arguments(j: &Json) -> (r: Option<Vec<InvokeArgument>>)
    ensures
        match r {
            Some(v) => arguments_of(*j) == Some(arguments_view(v@)),
            None => arguments_of(*j) is None,
        },
{
    match j {
        Json::Array(items) => {
            let mut out: Vec<InvokeArgument> = Vec::new();
            let mut i: usize = 0;
            while i < items.len()
                invariant
                    *j == Json::Array(*items),
                    i <= items@.len(),
                    out@.len() == i,
                    forall|k: int| 0 <= k < i ==> argument_of(#[trigger] items@[k]) is Some,
                    forall|k: int|
                        0 <= k < i ==> (#[trigger] out@[k])@ == argument_of(items@[k]).unwrap(),
                decreases items@.len() - i,
            {
                match read_argument(&items[i]) {
                    Some(a) => {
                        out.push(a);
                    },
                    None => {
                        assert(argument_of(items@[i as int]) is None);
                        assert(!all_arguments(items@));
                        return None;
                    },
                }
                i += 1;
            }
            assert(arguments_view(out@) =~= Seq::new(
                items@.len(),
                |i: int| argument_of(items@[i]).unwrap(),
            ));
            Some(out)
        },
        _ => None,
    }
}

/// The tags held by the parameter object of a scenario boundary.
pub fn read_tags(payload: &Json) -> (r: Option<Vec<String>>)
    ensures
        match r {
            Some(v) => tags_of(*payload) == Some(texts_view(v@)),
            None => tags_of(*payload) is None,
        },
{
    match payload.get("tags") {
        Some(t) => t.as_texts(),
        None => None,
    }
}

/// The request that a command and its parameter object stand for.
pub fn read_payload(command: Command, payload: &Json) -> (r: Option<Request>)
    ensures
        match r {
            Some(req) => payload_request(command, *payload) == Some(req@),
            None => payload_request(command, *payload) is None,
        },
{
    match command {
        Command::StepMatches => match payload.get_text("name_to_match") {
            Some(name) => Some(Request::StepMatches(StepMatchesRequest { name_to_match: name })),
            None => None,
        },
        Command::Invoke => {
            let id = payload.get_text("id");
            let args = match payload.get("args") {
                Some(a) => read_arguments(a),
                None => None,
            };
            match (id, args) {
                (Some(id), Some(args)) => Some(Request::Invoke(InvokeRequest { id, args })),
                _ => None,
            }
        },
        Command::BeginScenario => match read_tags(payload) {
            Some(tags) => Some(Request::BeginScenario(BeginScenarioRequest { tags })),
            None => None,
        },
        Command::EndScenario => match read_tags(payload) {
            Some(tags) => Some(Request::EndScenario(EndScenarioRequest { tags })),
            None => None,
        },
        Command::SnippetText => {
            let step_keyword = payload.get_text("step_keyword");
            let multiline_arg_class = payload.get_text("multiline_arg_class");
            let step_name = payload.get_text("step_name");
            match (step_keyword, multiline_arg_class, step_name) {
                (Some(step_keyword), Some(multiline_arg_class), Some(step_name)) => Some(
                    Request::SnippetText(
                        SnippetTextRequest { step_keyword, multiline_arg_class, step_name },
                    ),
                ),
                _ => None,
            }
        },
    }
}

/// The request that a JSON value stands for, or the reason it is none.
pub fn request_from_json(j: &Json) -> (r: Result<Request, DecodeError>)
    ensures
        agrees(r, request_of(*j)),
{
    match j {
        Json::Array(items) => {
            if items.len() == 0 {
                return Err(DecodeError::NoCommand);
            }
            match &items[0] {
                Json::Text(tag) => match read_command(tag.as_str()) {
                    Some(command) => {
                        let ghost rest = items@.skip(1);
                        let found = if items.len() == 1 {
                            match command {
                                Command::BeginScenario => Some(
                                    Request::BeginScenario(
                                        BeginScenarioRequest { tags: Vec::new() },
                                    ),
                                ),
                                Command::EndScenario => Some(
                                    Request::EndScenario(EndScenarioRequest { tags: Vec::new() }),
                                ),
                                _ => None,
                            }
                        } else if items.len() == 2 {
                            assert(rest[0] == items@[1]);
                            read_payload(command, &items[1])
                        } else {
                            None
                        };
                        match found {
                            Some(req) => {
                                assert(texts_view(Seq::<String>::empty()) =~= Seq::<Seq<char>>::empty());
                                Ok(req)
                            },
                            None => Err(DecodeError::BadPayload),
                        }
                    },
                    None => Err(DecodeError::UnknownCommand),
                },
                _ => Err(DecodeError::NoCommand),
            }
        },
        _ => Err(DecodeError::NoCommand),
    }
}

/// Reads a request from one line of the wire: a JSON array whose first
/// element names the command, in any case, and whose second element, where
/// the command has parameters, is the object that holds them.
pub fn decode_request(line: &str) -> (r: Result<Request, DecodeError>)
    ensures
        agrees(r, decoding(line@)),
{
    match read_json(line) {
        Some(j) => request_from_json(&j),
        None => Err(DecodeError::Syntax),
    }
}

/// The JSON of an argument: a string, `null`, or an array of arrays of
/// strings.
pub open spec fn argument_text(arg: InvokeArgumentView) -> Seq<char> {
    match arg {
        InvokeArgumentView::Text(text) => json_quoted(text),
        InvokeArgumentView::Absent => "null"@,
        InvokeArgumentView::Table(rows) => "["@ + joined(
            rows.map_values(|row: Seq<Seq<char>>| quoted_texts(row)),
        ) + "]"@,
    }
}

/// The JSON array of some arguments.
pub open spec fn arguments_text(args: Seq<InvokeArgumentView>) -> Seq<char> {
    "["@ + joined(args.map_values(|a: InvokeArgumentView| argument_text(a))) + "]"@
}

/// The line of a scenario boundary: the bare tag for a scenario without
/// tags, the tag and the tags otherwise.
pub open spec fn boundary_text(bare: Seq<char>, head: Seq<char>, tags: Seq<Seq<char>>) -> Seq<char> {
    if tags.len() == 0 {
        bare
    } else {
        head + quoted_texts(tags) + "}]"@
    }
}

/// The line that carries a request: a JSON array of the command tag and,
/// where there are parameters, the object that holds them.
pub open spec fn request_text(request: RequestView) -> Seq<char> {
    match request {
        RequestView::StepMatches { name_to_match } => "[\"step_matches\",{\"name_to_match\":"@
            + json_quoted(name_to_match) + "}]"@,
        RequestView::Invoke { id, args } => "[\"invoke\",{\"id\":"@ + json_quoted(id)
            + ",\"args\":"@ + arguments_text(args) + "}]"@,
        RequestView::BeginScenario { tags } => boundary_text(
            "[\"begin_scenario\"]"@,
            "[\"begin_scenario\",{\"tags\":"@,
            tags,
        ),
        RequestView::EndScenario { tags } => boundary_text(
            "[\"end_scenario\"]"@,
            "[\"end_scenario\",{\"tags\":"@,
            tags,
        ),
        RequestView::SnippetText {
            step_keyword,
            multiline_arg_class,
            step_name,
        } => "[\"snippet_text\",{\"step_keyword\":"@ + json_quoted(step_keyword)
            + ",\"multiline_arg_class\":"@ + json_quoted(multiline_arg_class)
            + ",\"step_name\":"@ + json_quoted(step_name) + "}]"@,
    }
}

impl InvokeArgument {
    /// Writes the argument as JSON.
    pub fn to_json(&self) -> (r: String)
        ensures
            r@ == argument_text(self@),
    {
        match self {
            InvokeArgument::String(text) => quote(text.as_str()),
            InvokeArgument::Absent => "null".to_owned(),
            InvokeArgument::Table(rows) => {
                let mut parts: Vec<String> = Vec::new();
                let mut i: usize = 0;
                while i < rows.len()
                    invariant
                        i <= rows@.len(),
                        parts@.len() == i,
                        forall|k: int|
                            0 <= k < i ==> (#[trigger] parts@[k])@ == quoted_texts(
                                texts_view(rows@[k]@),
                            ),
                    decreases rows@.len() - i,
                {
                    parts.push(quote_texts(&rows[i]));
                    i += 1;
                }
                assert(texts_view(parts@) =~= table_view(rows@).map_values(
                    |row: Seq<Seq<char>>| quoted_texts(row),
                ));
                let mut text = "[".to_owned();
                let body = join(&parts);
                text.append(body.as_str());
                text.append("]");
                text
            },
        }
    }
}

/// Writes arguments as a JSON array.
pub fn arguments_to_json(args: &Vec<InvokeArgument>) -> (r: String)
    ensures
        r@ == arguments_text(arguments_view(args@)),
{
    let mut parts: Vec<String> = Vec::new();
    let mut i: usize = 0;
    while i < args.len()
        invariant
            i <= args@.len(),
            parts@.len() == i,
            forall|k: int| 0 <= k < i ==> (#[trigger] parts@[k])@ == argument_text(args@[k]@),
        decreases args@.len() - i,
    {
        parts.push(args[i].to_json());
        i += 1;
    }
    assert(texts_view(parts@) =~= arguments_view(args@).map_values(
        |a: InvokeArgumentView| argument_text(a),
    ));
    let mut text = "[".to_owned();
    let body = join(&parts);
    text.append(body.as_str());
    text.append("]");
    text
}

/// Writes the line of a scenario boundary.
fn boundary_to_json(bare: &str, head: &str, tags: &Vec<String>) -> (r: String)
    ensures
        r@ == boundary_text(bare@, head@, texts_view(tags@)),
{
    if tags.len() == 0 {
        bare.to_owned()
    } else {
        let mut text = head.to_owned();
        let body = quote_texts(tags);
        text.append(body.as_str());
        text.append("}]");
        text
    }
}

/// Writes a request as the line the driver would send, without the newline.
pub fn encode_request(request: &Request) -> (r: String)
    ensures
        r@ == request_text(request@),
{
    match request {
        Request::StepMatches(params) => {
            let mut text = "[\"step_matches\",{\"name_to_match\":".to_owned();
            let name = quote(params.name_to_match.as_str());
            text.append(name.as_str());
            text.append("}]");
            text
        },
        Request::Invoke(params) => {
            let mut text = "[\"invoke\",{\"id\":".to_owned();
            let id = quote(params.id.as_str());
            text.append(id.as_str());
            text.append(",\"args\":");
            let args = arguments_to_json(&params.args);
            text.append(args.as_str());
            text.append("}]");
            text
        },
        Request::BeginScenario(params) => boundary_to_json(
            "[\"begin_scenario\"]",
            "[\"begin_scenario\",{\"tags\":",
            &params.tags,
        ),
        Request::EndScenario(params) => boundary_to_json(
            "[\"end_scenario\"]",
            "[\"end_scenario\",{\"tags\":",
            &params.tags,
        ),
        Request::SnippetText(params) => {
            let mut text = "[\"snippet_text\",{\"step_keyword\":".to_owned();
            let keyword = quote(params.step_keyword.as_str());
            text.append(keyword.as_str());
            text.append(",\"multiline_arg_class\":");
            let class = quote(params.multiline_arg_class.as_str());
            text.append(class.as_str());
            text.append(",\"step_name\":");
            let name = quote(params.step_name.as_str());
            text.append(name.as_str());
            text.append("}]");
            text
        },
    }
}

} // verus!
