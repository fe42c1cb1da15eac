//! Requests turned into state changes, step calls and responses.
//!
//! A [`WorldRunner`] owns the catalogue and the world. It is handed to the
//! server, which feeds it the requests of the driver one by one.

use crate::cucumber_regex::byte_length;
use crate::decimal::{lemma_parse_decimal, parse_id, parsed_id};
use crate::definitions::destructuring::invoke_arg_set::FromInvokeArgSet;
use crate::definitions::registration::{source_location, CucumberRegistrar};
use crate::definitions::typed::{count_failure, StepBody, TypedStep};
use crate::event::request::{InvokeArgumentView, Request, RequestView};
use crate::event::response::{
    failure, InvokeResponse, InvokeResponseView, Response, ResponseView, StepMatchesResponse,
    StepMatchesResponseView, StepView,
};
use crate::state::{
    found_in, ids_known, lemma_found_ids, matches_of, text_limit, Cucumber, CucumberView,
    SendableStep, StepId,
};
use regex::Regex;
use vstd::prelude::*;

verus! {

/// The step runner: the catalogue of steps together with the world they
/// work on.
pub struct WorldRunner<World, S> {
    cuke: Cucumber<World, S>,
    world: World,
}

/// What a step left behind when it did not return: an outcome it handed
/// over, a message, or something else.
#[derive(Eq, PartialEq, Clone, Debug)]
pub enum PanicPayload {
    Outcome(InvokeResponse),
    Message(String),
    Other,
}

/// The message reported for a payload that is neither outcome nor message.
pub open spec fn opaque_payload_text() -> Seq<char> {
    "Box<Any>"@
}

/// The outcome reported for a step: the one it returned, or the one its
/// payload stands for.
pub open spec fn folded(result: Result<InvokeResponse, PanicPayload>) -> InvokeResponseView {
    match result {
        Ok(outcome) => outcome@,
        Err(PanicPayload::Outcome(outcome)) => outcome@,
        Err(PanicPayload::Message(message)) => failure(message@),
        Err(PanicPayload::Other) => failure(opaque_payload_text()),
    }
}

/// Folds what became of a step call into the outcome to report: a returned
/// outcome and an outcome carried as payload are used as they are, a message
/// becomes a failure with that message, and anything else a failure with a
/// fixed message.
pub fn invoke_to_response(result: Result<InvokeResponse, PanicPayload>) -> (r: InvokeResponse)
    ensures
        r@ == folded(result),
{
    match result {
        Ok(outcome) => outcome,
        Err(PanicPayload::Outcome(outcome)) => outcome,
        Err(PanicPayload::Message(message)) => InvokeResponse::fail_from_str(message.as_str()),
        Err(PanicPayload::Other) => InvokeResponse::fail_from_str("Box<Any>"),
    }
}

/// The snippet suggested for a missing step.
pub open spec fn snippet_text(step_keyword: Seq<char>, step_name: Seq<char>) -> Seq<char> {
    "  // In a step registration block where cuke: &mut CucumberRegistrar<YourWorld>\n  use cucumber::InvokeResponse;\n  use cucumber::helpers::r;\n  "@ + step_keyword + "!(cuke, r(\"^"@ + step_name + "$\"), Box::new(move |c, _, _| {\n    c.pending(\"TODO\")\n  }));"@
}

/// Writes the snippet suggested for a missing step.
pub fn snippet(step_keyword: &str, step_name: &str) -> (r: String)
    ensures
        r@ == snippet_text(step_keyword@, step_name@),
{
    let mut text = "  // In a step registration block where cuke: &mut CucumberRegistrar<YourWorld>\n  use cucumber::InvokeResponse;\n  use cucumber::helpers::r;\n  ".to_owned();
    text.append(step_keyword);
    text.append("!(cuke, r(\"^");
    text.append(step_name);
    text.append("$\"), Box::new(move |c, _, _| {\n    c.pending(\"TODO\")\n  }));");
    text
}

/// The active tags after a request.
pub open spec fn tags_after(tags: Seq<Seq<char>>, req: RequestView) -> Seq<Seq<char>> {
    match req {
        RequestView::BeginScenario { tags: given } => given,
        RequestView::EndScenario { .. } => Seq::empty(),
        _ => tags,
    }
}

/// The active tags after a sequence of requests.
pub open spec fn tags_after_all(tags: Seq<Seq<char>>, reqs: Seq<RequestView>) -> Seq<Seq<char>>
    decreases reqs.len(),
{
    if reqs.len() == 0 {
        tags
    } else {
        tags_after(tags_after_all(tags, reqs.drop_last()), reqs.last())
    }
}

/// The answer to a match request: no match for an empty list of reports.
pub open spec fn match_answer(reports: Seq<StepView>) -> StepMatchesResponseView {
    if reports.len() == 0 {
        StepMatchesResponseView::NoMatch
    } else {
        StepMatchesResponseView::Match(reports)
    }
}

/// True when the request can be carried out on a catalogue: an invocation
/// has to name, in decimal, a step that exists, and a text to match has to
/// be within the limit of the matcher.
pub open spec fn executable(v: CucumberView, req: RequestView) -> bool {
    match req {
        RequestView::Invoke { id, .. } => parsed_id(id) matches Some(n) && n < v.step_count,
        RequestView::StepMatches { name_to_match } => byte_length(name_to_match) <= text_limit(),
        _ => true,
    }
}

/// What the response to a request has to be, given the catalogue before it.
/// For an invocation the step decides the outcome.
pub open spec fn answers(v: CucumberView, req: RequestView, r: ResponseView) -> bool {
    match req {
        RequestView::BeginScenario { .. } => r == ResponseView::BeginScenario,
        RequestView::EndScenario { .. } => r == ResponseView::EndScenario,
        RequestView::StepMatches { name_to_match } => r == ResponseView::StepMatches(
            match_answer(matches_of(v.entries, name_to_match)),
        ),
        RequestView::Invoke { .. } => r is Invoke,
        RequestView::SnippetText { step_keyword, step_name, .. } => r == ResponseView::SnippetText(
            snippet_text(step_keyword, step_name),
        ),
    }
}

/// Something that takes a request and gives the response to it.
pub trait CommandRunner: Sized {
    /// The catalogue behind the runner.
    spec fn registry(&self) -> CucumberView;

    /// The invariant of the runner.
    spec fn ready(&self) -> bool;

    /// What carrying out a request comes to: true when the runner `before`,
    /// carrying out `req` once, becomes the runner `after` and answers `r`.
    spec fn carried_out(before: Self, req: RequestView, after: Self, r: ResponseView) -> bool;

    /// True when the request can be carried out.
    fn can_execute(&self, req: &Request) -> (r: bool)
        requires
            self.ready(),
        ensures
            r == executable(self.registry(), req@),
    ;

    /// Carries out a request and gives the response to it.
    fn execute_cmd(&mut self, req: Request) -> (r: Response)
        requires
            old(self).ready(),
            executable(old(self).registry(), req@),
        ensures
            final(self).ready(),
            Self::carried_out(*old(self), req@, *final(self), r@),
            answers(old(self).registry(), req@, r@),
            final(self).registry().entries == old(self).registry().entries,
            final(self).registry().step_count == old(self).registry().step_count,
            final(self).registry().tags == tags_after(old(self).registry().tags, req@),
    ;
}

impl<World, S> WorldRunner<World, S> {
    /// The catalogue of the runner.
    pub closed spec fn cucumber(&self) -> Cucumber<World, S> {
        self.cuke
    }

    /// The world of the runner.
    pub closed spec fn world_value(&self) -> World {
        self.world
    }

    /// A runner with an empty catalogue around the given world.
    pub fn new(world: World) -> (r: WorldRunner<World, S>)
        ensures
            r.cucumber().wf(),
            r.cucumber()@.entries.len() == 0,
            r.cucumber()@.step_count == 0,
            r.cucumber()@.tags.len() == 0,
            r.world_value() == world,
    {
        WorldRunner { cuke: Cucumber::new(), world }
    }

    /// The tags of the running scenario.
    pub fn tags(&self) -> (r: &Vec<String>)
        ensures
            crate::event::json::texts_view(r@) == self.cucumber()@.tags,
    {
        self.cuke.tags_ref()
    }

    /// The number of registered steps.
    pub fn len(&self) -> (r: usize)
        ensures
            r == self.cucumber()@.step_count,
    {
        self.cuke.len()
    }

    /// The world of the runner.
    pub fn world(&self) -> (r: &World)
        ensures
            *r == self.world_value(),
    {
        &self.world
    }
}

impl<World, S: SendableStep<World>> CommandRunner for WorldRunner<World, S> {
    open spec fn registry(&self) -> CucumberView {
        self.cucumber()@
    }

    open spec fn ready(&self) -> bool {
        self.cucumber().wf()
    }

    /// The steps stay as they are. An invocation runs the step that the id
    /// names, once, on the world of the runner and with the arguments of
    /// the request, and answers with what the step reported; any other
    /// request leaves the world alone.
    open spec fn carried_out(before: Self, req: RequestView, after: Self, r: ResponseView) -> bool {
        &&& forall|id: StepId| after.cucumber().step_at(id) == before.cucumber().step_at(id)
        &&& match req {
            RequestView::Invoke { id, args } => parsed_id(id) matches Some(n)
                && before.cucumber().step_at(n) matches Some(step) && r matches ResponseView::Invoke(
                outcome,
            ) && step.outcome(
                before.cucumber()@,
                before.world_value(),
                args,
                after.world_value(),
                outcome,
            ),
            _ => after.world_value() == before.world_value(),
        }
    }

    fn can_execute(&self, req: &Request) -> (r: bool) {
        match req {
            Request::Invoke(params) => match parse_id(params.id.as_str()) {
                Some(id) => (id as usize) < self.cuke.len(),
                None => false,
            },
            Request::StepMatches(params) => {
                params.name_to_match.as_str().as_bytes().len() <= 0xffff_ffff
            },
            _ => true,
        }
    }

    fn execute_cmd(&mut self, req: Request) -> (r: Response) {
        match req {
            Request::BeginScenario(params) => {
                self.cuke.set_tags(params.tags);
                Response::BeginScenario
            },
            Request::Invoke(params) => {
                let outcome = match parse_id(params.id.as_str()) {
                    Some(id) => match self.cuke.step(id) {
                        Some(step) => step.run(&self.cuke, &mut self.world, params.args),
                        None => {
                            proof {
                                assert(false);
                            }
                            unreached()
                        },
                    },
                    None => {
                        proof {
                            assert(false);
                        }
                        unreached()
                    },
                };
                Response::Invoke(outcome)
            },
            Request::StepMatches(params) => {
                let matches = self.cuke.find_match(params.name_to_match.as_str());
                if matches.len() == 0 {
                    Response::StepMatches(StepMatchesResponse::NoMatch)
                } else {
                    Response::StepMatches(StepMatchesResponse::Match(matches))
                }
            },
            Request::EndScenario(_) => {
                self.cuke.set_tags(Vec::new());
                assert(crate::event::json::texts_view(Seq::<String>::empty()) =~= Seq::<Seq<char>>::empty());
                Response::EndScenario
            },
            Request::SnippetText(params) => {
                let text = snippet(params.step_keyword.as_str(), params.step_name.as_str());
                Response::SnippetText(text)
            },
        }
    }
}

impl<World, S> CucumberRegistrar<World, S> for WorldRunner<World, S> {
    open spec fn catalogue(&self) -> CucumberView {
        self.cucumber()@
    }

    open spec fn takes_steps(&self) -> bool {
        self.cucumber().wf() && self.cucumber()@.step_count < u32::MAX
    }

    open spec fn registered(&self, id: StepId) -> Option<S> {
        self.cucumber().step_at(id)
    }

    fn given(&mut self, file: &str, line: u32, regex: Regex, step: S)
        ensures
            final(self).world_value() == old(self).world_value(),
    {
        self.cuke.insert_step(source_location(file, line), regex, step);
    }

    fn when(&mut self, file: &str, line: u32, regex: Regex, step: S)
        ensures
            final(self).world_value() == old(self).world_value(),
    {
        self.cuke.insert_step(source_location(file, line), regex, step);
    }

    fn then(&mut self, file: &str, line: u32, regex: Regex, step: S)
        ensures
            final(self).world_value() == old(self).world_value(),
    {
        self.cuke.insert_step(source_location(file, line), regex, step);
    }
}

/// After a scenario has begun with some tags, the active tags are those
/// tags through every later request, until a scenario ends or another one
/// begins.
pub proof fn lemma_tags_during_scenario(
    before: Seq<Seq<char>>,
    tags: Seq<Seq<char>>,
    later: Seq<RequestView>,
)
    requires
        forall|i: int|
            0 <= i < later.len() ==> !((#[trigger] later[i]) is EndScenario) && !(later[i]
                is BeginScenario),
    ensures
        tags_after_all(tags_after(before, RequestView::BeginScenario { tags }), later) == tags,
    decreases later.len(),
{
    if later.len() > 0 {
        assert forall|i: int| 0 <= i < later.drop_last().len() implies !((
        #[trigger] later.drop_last()[i]) is EndScenario) && !(later.drop_last()[i]
            is BeginScenario) by {
            assert(later.drop_last()[i] == later[i]);
        }
        lemma_tags_during_scenario(before, tags, later.drop_last());
        assert(later.last() == later[later.len() - 1]);
    }
}

/// When a scenario ends, no tag stays active.
pub proof fn lemma_tags_after_scenario(before: Seq<Seq<char>>, tags: Seq<Seq<char>>)
    ensures
        tags_after(before, RequestView::EndScenario { tags }) == Seq::<Seq<char>>::empty(),
{
}

/// An invocation that names the id of any report of a match request can be
/// carried out: the id reads back as the number of a step that exists.
pub proof fn lemma_reported_ids_are_executable(
    v: CucumberView,
    text: Seq<char>,
    k: int,
    args: Seq<InvokeArgumentView>,
)
    requires
        ids_known(v),
        0 <= k < matches_of(v.entries, text).len(),
    ensures
        executable(v, RequestView::Invoke { id: matches_of(v.entries, text)[k].id, args }),
{
    lemma_found_ids(v.entries, text, v.step_count, k);
    lemma_parse_decimal(found_in(v.entries, text)[k].id);
}

/// An invocation that hands a typed step the wrong number of arguments is
/// answered with the failure that names both numbers, and the world stays
/// as it was.
pub proof fn lemma_invoke_with_wrong_count<World, T: FromInvokeArgSet, B: StepBody<World, T>>(
    before: WorldRunner<World, TypedStep<B, T>>,
    id: Seq<char>,
    args: Seq<InvokeArgumentView>,
    after: WorldRunner<World, TypedStep<B, T>>,
    r: ResponseView,
)
    requires
        WorldRunner::<World, TypedStep<B, T>>::carried_out(
            before,
            RequestView::Invoke { id, args },
            after,
            r,
        ),
        args.len() != T::arity(),
    ensures
        r == ResponseView::Invoke(count_failure(T::arity(), args.len())),
        after.world_value() == before.world_value(),
{
}

} // verus!
