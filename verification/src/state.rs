//! The catalogue of step definitions and the matcher.
//!
//! A [`Cucumber`] keeps the regular expressions in the order they were
//! registered, the id and source location each expression answers with, and
//! the step behind each id.

use crate::cucumber_regex::{
    byte_length, capture_groups, captures_fit, group_view, groups_view, lies_at, regex_captures,
    regex_source,
};
use crate::decimal::{decimal, decimal_text};
use crate::event::json::{str_equal, texts_view};
use crate::event::request::{arguments_view, InvokeArgument, InvokeArgumentView};
use crate::event::response::{
    failure, step_args_view, steps_view, InvokeResponse, InvokeResponseView, Step, StepArg,
    StepArgView, StepView,
};
use regex::Regex;
use std::collections::HashMap;
use vstd::prelude::*;

verus! {

/// The number a step definition is known by.
pub type StepId = u32;

/// A step definition: called with the catalogue, the world and the arguments
/// of the step, it reports how the step went.
pub trait SendableStep<World>: Sized {
    /// What a run of the step comes to: true when, called with this
    /// catalogue and these arguments on the world `before`, the step may
    /// leave the world `after` and report `r`. A step that states nothing
    /// of itself allows every outcome.
    open spec fn outcome(
        &self,
        cuke: CucumberView,
        before: World,
        args: Seq<InvokeArgumentView>,
        after: World,
        r: InvokeResponseView,
    ) -> bool {
        true
    }

    /// Runs the step.
    fn run(
        &self,
        cuke: &Cucumber<World, Self>,
        world: &mut World,
        args: Vec<InvokeArgument>,
    ) -> (r: InvokeResponse)
        requires
            cuke.wf(),
        ensures
            self.outcome(cuke@, *old(world), arguments_view(args@), *final(world), r@),
    ;
}

/// The catalogue of step definitions, with the tags of the running scenario.
pub struct Cucumber<World, S> {
    /// The expressions, in the order of their registration.
    step_regexes: Vec<Regex>,
    /// For each expression, the id it answers with: that of the latest
    /// step registered with the same pattern.
    step_ids: Vec<StepId>,
    /// For each expression, the source location it answers with.
    step_sources: Vec<String>,
    /// The step behind each id.
    steps: HashMap<StepId, S>,
    /// The tags of the running scenario.
    pub tags: Vec<String>,
    world: Ghost<Option<World>>,
}

/// One registered expression with what it answers: the id of a step and the
/// place that step was defined at.
pub struct EntryView {
    pub regex: Regex,
    pub id: StepId,
    pub source: Seq<char>,
}

/// Mathematical model of a [`Cucumber`]: the registered expressions in
/// insertion order, the number of steps, and the active tags.
pub struct CucumberView {
    pub entries: Seq<EntryView>,
    pub step_count: nat,
    pub tags: Seq<Seq<char>>,
}

/// One step definition that matches a text, with its numeric id.
#[derive(Eq, PartialEq, Clone, Debug)]
pub struct StepMatch {
    pub id: StepId,
    pub args: Vec<StepArg>,
    pub source: String,
}

/// Mathematical model of a [`StepMatch`].
pub struct StepMatchView {
    pub id: StepId,
    pub args: Seq<StepArgView>,
    pub source: Seq<char>,
}

impl View for StepMatch {
    type V = StepMatchView;

    open spec fn view(&self) -> StepMatchView {
        StepMatchView { id: self.id, args: step_args_view(self.args@), source: self.source@ }
    }
}

/// The models of a sequence of matches.
pub open spec fn step_matches_view(found: Seq<StepMatch>) -> Seq<StepMatchView> {
    found.map_values(|m: StepMatch| m@)
}

/// The longest text, in bytes, that the matcher takes: every byte offset
/// into it fits in 32 bits.
pub open spec fn text_limit() -> nat {
    0xffff_ffff
}

/// The offset reported for a group that starts at byte `start` of a text
/// within [`text_limit`]: `start` itself.
pub open spec fn offset_of(start: usize) -> u32 {
    start as u32
}

/// The capture record of one group: its text and offset, or nothing at all
/// for a group that took no part in the match.
pub open spec fn capture_arg(group: Option<(usize, Seq<char>)>) -> StepArgView {
    match group {
        Some((start, text)) => StepArgView { val: Some(text), pos: Some(offset_of(start)) },
        None => StepArgView { val: None, pos: None },
    }
}

/// The capture records of a match: one for each group but group 0, the whole
/// match.
pub open spec fn capture_args(groups: Seq<Option<(usize, Seq<char>)>>) -> Seq<StepArgView> {
    if groups.len() >= 1 {
        Seq::new((groups.len() - 1) as nat, |i: int| capture_arg(groups[i + 1]))
    } else {
        Seq::empty()
    }
}

/// What an entry answers when its expression matched with these groups.
pub open spec fn hit(entry: EntryView, groups: Seq<Option<(usize, Seq<char>)>>) -> StepMatchView {
    StepMatchView { id: entry.id, args: capture_args(groups), source: entry.source }
}

/// The matches of a text: one for each entry whose expression matches the
/// text anywhere, in the order of the entries.
pub open spec fn found_in(entries: Seq<EntryView>, text: Seq<char>) -> Seq<StepMatchView>
    decreases entries.len(),
{
    if entries.len() == 0 {
        Seq::empty()
    } else {
        let before = found_in(entries.drop_last(), text);
        match regex_captures(entries.last().regex, text) {
            Some(groups) => before.push(hit(entries.last(), groups)),
            None => before,
        }
    }
}

/// The report sent to the driver for a match: the id in decimal.
pub open spec fn report(m: StepMatchView) -> StepView {
    StepView { id: decimal_text(m.id as nat), args: m.args, source: m.source }
}

/// The reports for a text, in the order of the entries.
pub open spec fn matches_of(entries: Seq<EntryView>, text: Seq<char>) -> Seq<StepView> {
    found_in(entries, text).map_values(|m: StepMatchView| report(m))
}

/// True when every offset in the capture records is at most `len`.
pub open spec fn args_within(args: Seq<StepArgView>, len: nat) -> bool {
    forall|i: int| 0 <= i < args.len() ==> ((#[trigger] args[i]).pos matches Some(p) ==> p <= len)
}

/// True when every offset in the reports is at most `len`.
pub open spec fn offsets_within(reports: Seq<StepView>, len: nat) -> bool {
    forall|k: int| 0 <= k < reports.len() ==> args_within((#[trigger] reports[k]).args, len)
}

/// True when every entry answers with the id of a step that exists.
pub open spec fn ids_known(v: CucumberView) -> bool {
    forall|i: int| 0 <= i < v.entries.len() ==> (#[trigger] v.entries[i]).id < v.step_count
}

/// An entry after a new registration of `pattern`: an entry with the same
/// pattern now answers with the new id and source.
pub open spec fn rebound(e: EntryView, pattern: Seq<char>, id: StepId, source: Seq<char>) -> EntryView {
    if regex_source(e.regex) == pattern {
        EntryView { regex: e.regex, id, source }
    } else {
        e
    }
}

/// The catalogue after one more registration: the new step gets the next id,
/// its entry goes last, and earlier entries with the same pattern answer as
/// the new one does.
pub open spec fn inserted(v: CucumberView, regex: Regex, path: Seq<char>) -> CucumberView {
    let id = v.step_count as StepId;
    CucumberView {
        entries: v.entries.map_values(|e: EntryView| rebound(e, regex_source(regex), id, path)).push(
            EntryView { regex, id, source: path },
        ),
        step_count: v.step_count + 1,
        tags: v.tags,
    }
}

/// The argument handed to a step for a capture record.
pub open spec fn argument_of_capture(arg: StepArgView) -> InvokeArgumentView {
    match arg.val {
        Some(text) => InvokeArgumentView::Text(text),
        None => InvokeArgumentView::Absent,
    }
}

/// The arguments handed to a step that is invoked directly: one for each
/// capture record, then the extra argument if there is one.
pub open spec fn call_arguments(args: Seq<StepArgView>, extra: Option<InvokeArgumentView>) -> Seq<
    InvokeArgumentView,
> {
    let captured = args.map_values(|a: StepArgView| argument_of_capture(a));
    match extra {
        Some(e) => captured.push(e),
        None => captured,
    }
}

/// The message of a direct invocation that matches no step.
pub open spec fn no_match_text() -> Seq<char> {
    "Direct invoke matched no steps"@
}

/// The message of a direct invocation that matches several steps.
pub open spec fn many_matches_text() -> Seq<char> {
    "Direct invoke matched more than one step"@
}

/// The model of an optional argument.
pub open spec fn extra_view(extra: Option<InvokeArgument>) -> Option<InvokeArgumentView> {
    match extra {
        Some(a) => Some(a@),
        None => None,
    }
}

/// What a direct invocation comes to before any step runs: the step to call
/// and its arguments where exactly one entry matches, a failure otherwise.
pub open spec fn resolution(
    entries: Seq<EntryView>,
    text: Seq<char>,
    extra: Option<InvokeArgumentView>,
) -> Result<(StepId, Seq<InvokeArgumentView>), InvokeResponseView> {
    let found = found_in(entries, text);
    if found.len() == 0 {
        Err(failure(no_match_text()))
    } else if found.len() == 1 {
        Ok((found[0].id, call_arguments(found[0].args, extra)))
    } else {
        Err(failure(many_matches_text()))
    }
}

/// The entry that the match number `k` of a text comes from.
pub open spec fn origin(entries: Seq<EntryView>, text: Seq<char>, k: int) -> int
    decreases entries.len(),
{
    if entries.len() == 0 {
        0
    } else if k < found_in(entries.drop_last(), text).len() {
        origin(entries.drop_last(), text, k)
    } else {
        entries.len() - 1
    }
}

impl<World, S> View for Cucumber<World, S> {
    type V = CucumberView;

    closed spec fn view(&self) -> CucumberView {
        CucumberView {
            entries: Seq::new(
                self.step_regexes@.len(),
                |i: int|
                    EntryView {
                        regex: self.step_regexes@[i],
                        id: self.step_ids@[i],
                        source: self.step_sources@[i]@,
                    },
            ),
            step_count: self.step_regexes@.len(),
            tags: texts_view(self.tags@),
        }
    }
}

/// The capture record of one group.
fn step_arg_of(group: &Option<(usize, String)>) -> (r: StepArg)
    requires
        *group matches Some(g) ==> g.0 <= text_limit(),
    ensures
        r@ == capture_arg(group_view(*group)),
        *group matches Some(g) ==> r@.pos == Some(g.0 as u32) && g.0 as u32 == g.0,
{
    match group {
        Some((start, text)) => {
            let pos: u32 = *start as u32;
            StepArg { val: Some(text.clone()), pos: Some(pos) }
        },
        None => StepArg { val: None, pos: None },
    }
}

/// A copy of capture records.
fn copy_step_args(args: &Vec<StepArg>) -> (r: Vec<StepArg>)
    ensures
        step_args_view(r@) == step_args_view(args@),
{
    let mut out: Vec<StepArg> = Vec::new();
    let mut i: usize = 0;
    while i < args.len()
        invariant
            i <= args@.len(),
            out@.len() == i,
            forall|k: int| 0 <= k < i ==> (#[trigger] out@[k])@ == args@[k]@,
        decreases args@.len() - i,
    {
        let val = match &args[i].val {
            Some(v) => Some(v.clone()),
            None => None,
        };
        out.push(StepArg { val, pos: args[i].pos });
        i += 1;
    }
    assert(step_args_view(out@) =~= step_args_view(args@));
    out
}

/// The capture records of a match in a text within the limit.
fn step_args_of(groups: &Vec<Option<(usize, String)>>, Ghost(text): Ghost<Seq<char>>) -> (r: Vec<
    StepArg,
>)
    requires
        captures_fit(groups_view(groups@), text),
        byte_length(text) <= text_limit(),
    ensures
        step_args_view(r@) == capture_args(groups_view(groups@)),
        args_within(step_args_view(r@), byte_length(text)),
{
    let mut out: Vec<StepArg> = Vec::new();
    let mut i: usize = 1;
    while i < groups.len()
        invariant
            1 <= i <= groups@.len(),
            out@.len() == i - 1,
            captures_fit(groups_view(groups@), text),
            byte_length(text) <= text_limit(),
            forall|k: int|
                0 <= k < i - 1 ==> (#[trigger] out@[k])@ == capture_arg(
                    group_view(groups@[k + 1]),
                ),
            forall|k: int|
                0 <= k < i - 1 ==> ((#[trigger] out@[k])@.pos matches Some(p) ==> p <= byte_length(
                    text,
                )),
        decreases groups@.len() - i,
    {
        proof {
            let g = groups_view(groups@)[i as int];
            assert(g == group_view(groups@[i as int]));
            if let Some(pair) = g {
                assert(lies_at(text, pair.0, pair.1));
            }
        }
        let arg = step_arg_of(&groups[i]);
        out.push(arg);
        i += 1;
    }
    assert(step_args_view(out@) =~= capture_args(groups_view(groups@)));
    out
}

impl<World, S> Cucumber<World, S> {
    /// True when the parts of the catalogue have one length.
    pub closed spec fn consistent(&self) -> bool {
        &&& self.step_ids@.len() == self.step_regexes@.len()
        &&& self.step_sources@.len() == self.step_regexes@.len()
        &&& forall|id: StepId|
            self.steps@.contains_key(id) <==> id < self.step_regexes@.len()
    }

    /// The invariant of a catalogue: one entry for each step, and every
    /// entry answers with the id of a step that exists.
    pub open spec fn wf(&self) -> bool {
        &&& self.consistent()
        &&& self@.entries.len() == self@.step_count
        &&& ids_known(self@)
    }

    /// The step known by `id`.
    pub closed spec fn step_at(&self, id: StepId) -> Option<S> {
        if self.steps@.contains_key(id) {
            Some(self.steps@[id])
        } else {
            None
        }
    }

    /// An empty catalogue without tags.
    pub fn new() -> (r: Cucumber<World, S>)
        ensures
            r.wf(),
            r@.entries.len() == 0,
            r@.step_count == 0,
            r@.tags.len() == 0,
    {
        let r = Cucumber {
            step_regexes: Vec::new(),
            step_ids: Vec::new(),
            step_sources: Vec::new(),
            steps: HashMap::new(),
            tags: Vec::new(),
            world: Ghost(None),
        };
        assert(r@.entries =~= Seq::<EntryView>::empty());
        assert(r@.tags =~= Seq::<Seq<char>>::empty());
        r
    }

    /// The number of registered steps.
    pub fn len(&self) -> (r: usize)
        ensures
            r == self@.step_count,
    {
        self.step_regexes.len()
    }

    /// Registers a step: the expression goes last in the matching order, the
    /// step gets the next id, and any earlier entry with the same pattern
    /// answers with the new id and source from now on.
    pub fn insert_step(&mut self, path: String, regex: Regex, step: S)
        requires
            old(self).wf(),
            old(self)@.step_count < u32::MAX,
        ensures
            final(self).wf(),
            final(self)@ == inserted(old(self)@, regex, path@),
            final(self).step_at(old(self)@.step_count as StepId) == Some(step),
            forall|id: StepId| id < old(self)@.step_count ==>
                final(self).step_at(id) == old(self).step_at(id),
    {
        let n = self.step_regexes.len();
        let this_id: StepId = n as StepId;
        let ghost before = self@;
        let ghost pattern = regex_source(regex);
        let ghost old_ids = self.step_ids@;
        let ghost old_sources = self.step_sources@;
        let mut i: usize = 0;
        while i < n
            invariant
                i <= n,
                n == self.step_regexes@.len(),
                n < u32::MAX,
                this_id == n,
                pattern == regex_source(regex),
                self.consistent(),
                self.steps == old(self).steps,
                self.tags == old(self).tags,
                self.step_regexes == old(self).step_regexes,
                old_ids.len() == n,
                old_sources.len() == n,
                forall|k: int|
                    0 <= k < i ==> (#[trigger] self.step_ids@[k]) == (if regex_source(
                        self.step_regexes@[k],
                    ) == pattern {
                        this_id
                    } else {
                        old_ids[k]
                    }),
                forall|k: int|
                    0 <= k < i ==> (#[trigger] self.step_sources@[k])@ == (if regex_source(
                        self.step_regexes@[k],
                    ) == pattern {
                        path@
                    } else {
                        old_sources[k]@
                    }),
                forall|k: int| i <= k < n ==> (#[trigger] self.step_ids@[k]) == old_ids[k],
                forall|k: int| i <= k < n ==> (#[trigger] self.step_sources@[k]) == old_sources[k],
            decreases n - i,
        {
            if str_equal(self.step_regexes[i].as_str(), regex.as_str()) {
                self.step_ids.set(i, this_id);
                self.step_sources.set(i, path.clone());
            }
            i += 1;
        }
        self.step_regexes.push(regex);
        self.step_ids.push(this_id);
        self.step_sources.push(path);
        self.steps.insert(this_id, step);
        proof {
            let target = inserted(before, regex, path@).entries;
            assert(self@.entries.len() == target.len());
            assert forall|k: int| 0 <= k < target.len() implies self@.entries[k] == target[k] by {
                if k < n {
                    assert(self.step_ids@[k] == (if regex_source(self.step_regexes@[k]) == pattern {
                        this_id
                    } else {
                        old_ids[k]
                    }));
                    assert(before.entries[k].id == old_ids[k]);
                    assert(before.entries[k].source == old_sources[k]@);
                }
            }
            assert(self@.entries =~= target);
        }
    }

    /// Every step definition whose expression matches the text anywhere, in
    /// registration order, each with its numeric id, its capture records and
    /// its source location.
    pub fn find_steps(&self, str: &str) -> (r: Vec<StepMatch>)
        requires
            self.wf(),
            byte_length(str@) <= text_limit(),
        ensures
            step_matches_view(r@) == found_in(self@.entries, str@),
            r@.len() == found_in(self@.entries, str@).len(),
            forall|k: int| 0 <= k < r@.len() ==> args_within((#[trigger] r@[k])@.args, byte_length(str@)),
            forall|k: int| 0 <= k < r@.len() ==> (#[trigger] r@[k]).id < self@.step_count,
    {
        let mut out: Vec<StepMatch> = Vec::new();
        let n = self.step_regexes.len();
        let mut i: usize = 0;
        assert(self@.entries.take(0) =~= Seq::<EntryView>::empty());
        while i < n
            invariant
                i <= n,
                n == self.step_regexes@.len(),
                self.wf(),
                step_matches_view(out@) == found_in(self@.entries.take(i as int), str@),
                forall|k: int| 0 <= k < out@.len() ==> args_within((#[trigger] out@[k])@.args, byte_length(str@)),
                forall|k: int| 0 <= k < out@.len() ==> (#[trigger] out@[k]).id < self@.step_count,
                byte_length(str@) <= text_limit(),
            decreases n - i,
        {
            let ghost entries = self@.entries;
            assert(entries.take(i + 1).drop_last() =~= entries.take(i as int));
            assert(entries.take(i + 1).last() == entries[i as int]);
            match capture_groups(&self.step_regexes[i], str) {
                Some(groups) => {
                    let args = step_args_of(&groups, Ghost(str@));
                    let found = StepMatch {
                        id: self.step_ids[i],
                        args,
                        source: self.step_sources[i].clone(),
                    };
                    assert(found@ == hit(entries[i as int], groups_view(groups@)));
                    let ghost old_out = out@;
                    out.push(found);
                    assert(step_matches_view(out@) =~= step_matches_view(old_out).push(found@));
                },
                None => {},
            }
            i += 1;
        }
        assert(self@.entries.take(n as int) =~= self@.entries);
        out
    }

    /// Every step definition whose expression matches the text anywhere, in
    /// registration order, as reported to the driver. The text has to be
    /// within the limit, so that every byte offset fits the report.
    pub fn find_match(&self, str: &str) -> (r: Vec<Step>)
        requires
            self.wf(),
            byte_length(str@) <= text_limit(),
        ensures
            steps_view(r@) == matches_of(self@.entries, str@),
            r@.len() == found_in(self@.entries, str@).len(),
            offsets_within(steps_view(r@), byte_length(str@)),
    {
        let found = self.find_steps(str);
        let mut out: Vec<Step> = Vec::new();
        let mut i: usize = 0;
        while i < found.len()
            invariant
                i <= found@.len(),
                out@.len() == i,
                forall|k: int| 0 <= k < found@.len() ==> args_within((#[trigger] found@[k])@.args, byte_length(str@)),
                forall|k: int| 0 <= k < i ==> (#[trigger] out@[k])@ == report(found@[k]@),
            decreases found@.len() - i,
        {
            let m = &found[i];
            let step = Step { id: decimal(m.id as u64), args: copy_step_args(&m.args), source: m.source.clone() };
            out.push(step);
            i += 1;
        }
        assert(steps_view(out@) =~= step_matches_view(found@).map_values(|m: StepMatchView| report(m)));
        out
    }

    /// The step known by `id`.
    pub fn step(&self, id: StepId) -> (r: Option<&S>)
        requires
            self.wf(),
        ensures
            r is Some <==> id < self@.step_count,
            match r {
                Some(s) => self.step_at(id) == Some(*s),
                None => self.step_at(id) is None,
            },
    {
        self.steps.get(&id)
    }
}

impl<World, S> Cucumber<World, S> {
    /// Replaces the active tags.
    pub fn set_tags(&mut self, tags: Vec<String>)
        requires
            old(self).wf(),
        ensures
            final(self).wf(),
            final(self)@.entries == old(self)@.entries,
            final(self)@.step_count == old(self)@.step_count,
            final(self)@.tags == texts_view(tags@),
            forall|id: StepId| final(self).step_at(id) == old(self).step_at(id),
    {
        self.tags = tags;
        assert(self@.entries =~= old(self)@.entries);
    }

    /// The active tags.
    pub fn tags_ref(&self) -> (r: &Vec<String>)
        ensures
            texts_view(r@) == self@.tags,
    {
        &self.tags
    }

    /// The argument handed to a step for a capture record.
    fn argument_for(arg: &StepArg) -> (r: InvokeArgument)
        ensures
            r@ == argument_of_capture(arg@),
    {
        match &arg.val {
            Some(v) => InvokeArgument::String(v.clone()),
            None => InvokeArgument::Absent,
        }
    }

    /// Decides what a direct invocation of a step text comes to: the id of
    /// the one matching step and the arguments it is called with, or the
    /// failure to report where no step or more than one step matches.
    pub fn resolve(&self, str: &str, extra_arg: Option<InvokeArgument>) -> (r: Result<
        (StepId, Vec<InvokeArgument>),
        InvokeResponse,
    >)
        requires
            self.wf(),
            byte_length(str@) <= text_limit(),
        ensures
            match resolution(self@.entries, str@, extra_view(extra_arg)) {
                Ok((id, args)) => r matches Ok(p) && p.0 == id && arguments_view(p.1@) == args
                    && id < self@.step_count,
                Err(f) => r matches Err(e) && e@ == f,
            },
    {
        let found = self.find_steps(str);
        if found.len() == 0 {
            Err(InvokeResponse::with_fail_message("Direct invoke matched no steps"))
        } else if found.len() == 1 {
            let m = &found[0];
            let ghost views = step_args_view(m.args@);
            let mut args: Vec<InvokeArgument> = Vec::new();
            let mut i: usize = 0;
            while i < m.args.len()
                invariant
                    i <= m.args@.len(),
                    args@.len() == i,
                    forall|k: int| 0 <= k < i ==> (#[trigger] args@[k])@ == argument_of_capture(m.args@[k]@),
                decreases m.args@.len() - i,
            {
                args.push(Self::argument_for(&m.args[i]));
                i += 1;
            }
            assert(arguments_view(args@) =~= views.map_values(|a: StepArgView| argument_of_capture(a)));
            match extra_arg {
                Some(extra) => {
                    let ghost before = args@;
                    args.push(extra);
                    assert(arguments_view(args@) =~= arguments_view(before).push(extra@));
                },
                None => {},
            }
            assert(found@[0]@ == found_in(self@.entries, str@)[0]);
            Ok((m.id, args))
        } else {
            Err(InvokeResponse::with_fail_message("Direct invoke matched more than one step"))
        }
    }
}

impl<World, S: SendableStep<World>> Cucumber<World, S> {
    /// Runs the one step whose expression matches the text, with the
    /// captured groups and the extra argument, if any, as its arguments.
    /// Where no step or more than one step matches, nothing runs and the
    /// failure says which of the two happened.
    pub fn invoke(&self, str: &str, world: &mut World, extra_arg: Option<InvokeArgument>) -> (r:
        InvokeResponse)
        requires
            self.wf(),
            byte_length(str@) <= text_limit(),
        ensures
            found_in(self@.entries, str@).len() == 0 ==> r@ == failure(no_match_text())
                && *final(world) == *old(world),
            found_in(self@.entries, str@).len() > 1 ==> r@ == failure(many_matches_text())
                && *final(world) == *old(world),
            resolution(self@.entries, str@, extra_view(extra_arg)) matches Ok(plan) ==> (
            self.step_at(plan.0) matches Some(step) && step.outcome(
                self@,
                *old(world),
                plan.1,
                *final(world),
                r@,
            )),
    {
        match self.resolve(str, extra_arg) {
            Ok((id, args)) => match self.step(id) {
                Some(step) => step.run(self, world, args),
                None => {
                    proof {
                        assert(false);
                    }
                    unreached()
                },
            },
            Err(failed) => failed,
        }
    }
}

/// Ids are dense: a registration gives the new step the number of steps
/// registered before it, and afterwards every entry still answers with the
/// id of a step that exists.
pub proof fn lemma_ids_stay_dense(v: CucumberView, regex: Regex, path: Seq<char>)
    requires
        ids_known(v),
        v.entries.len() == v.step_count,
        v.step_count < u32::MAX,
    ensures
        ids_known(inserted(v, regex, path)),
        inserted(v, regex, path).entries.len() == inserted(v, regex, path).step_count,
        inserted(v, regex, path).entries.last().id == v.step_count,
{
    let after = inserted(v, regex, path);
    assert forall|i: int| 0 <= i < after.entries.len() implies (#[trigger] after.entries[i]).id
        < after.step_count by {
        if i < v.entries.len() {
            assert(v.entries[i].id < v.step_count);
        }
    }
}

/// Every match carries the id of its entry, so ids below a bound stay below
/// it.
pub proof fn lemma_found_ids(entries: Seq<EntryView>, text: Seq<char>, bound: nat, k: int)
    requires
        forall|i: int| 0 <= i < entries.len() ==> (#[trigger] entries[i]).id < bound,
        0 <= k < found_in(entries, text).len(),
    ensures
        found_in(entries, text)[k].id < bound,
    decreases entries.len(),
{
    if entries.len() > 0 {
        let before = found_in(entries.drop_last(), text);
        if k < before.len() {
            assert forall|i: int| 0 <= i < entries.drop_last().len() implies (
            #[trigger] entries.drop_last()[i]).id < bound by {
                assert(entries.drop_last()[i] == entries[i]);
            }
            lemma_found_ids(entries.drop_last(), text, bound, k);
        } else {
            assert(entries.last() == entries[entries.len() - 1]);
        }
    }
}

/// Every report of `find_match` names, in decimal, the id of a step that
/// `step` finds.
pub proof fn lemma_reports_name_steps(v: CucumberView, text: Seq<char>, k: int)
    requires
        ids_known(v),
        0 <= k < matches_of(v.entries, text).len(),
    ensures
        exists|id: StepId|
            id < v.step_count && #[trigger] decimal_text(id as nat) == matches_of(
                v.entries,
                text,
            )[k].id,
{
    lemma_found_ids(v.entries, text, v.step_count, k);
    let id = found_in(v.entries, text)[k].id;
    assert(decimal_text(id as nat) == matches_of(v.entries, text)[k].id);
}

/// Each match comes from an entry whose expression matches the text, and is
/// what that entry answers.
pub proof fn lemma_origin(entries: Seq<EntryView>, text: Seq<char>, k: int)
    requires
        0 <= k < found_in(entries, text).len(),
    ensures
        0 <= origin(entries, text, k) < entries.len(),
        regex_captures(entries[origin(entries, text, k)].regex, text) matches Some(groups)
            && found_in(entries, text)[k] == hit(entries[origin(entries, text, k)], groups),
    decreases entries.len(),
{
    if entries.len() > 0 {
        let before = found_in(entries.drop_last(), text);
        if k < before.len() {
            lemma_origin(entries.drop_last(), text, k);
            assert(entries.drop_last()[origin(entries.drop_last(), text, k)] == entries[origin(
                entries,
                text,
                k,
            )]);
        } else {
            assert(entries.last() == entries[entries.len() - 1]);
        }
    }
}

/// Insertion order is kept: of two matches, the earlier one comes from the
/// entry that was registered first.
pub proof fn lemma_insertion_order(entries: Seq<EntryView>, text: Seq<char>, k1: int, k2: int)
    requires
        0 <= k1 < k2 < found_in(entries, text).len(),
    ensures
        origin(entries, text, k1) < origin(entries, text, k2),
    decreases entries.len(),
{
    if entries.len() > 0 {
        let before = found_in(entries.drop_last(), text);
        if k2 < before.len() {
            lemma_insertion_order(entries.drop_last(), text, k1, k2);
        } else {
            lemma_origin(entries.drop_last(), text, k1);
        }
    }
}

/// A catalogue without entries matches no text.
pub proof fn lemma_empty_catalogue(text: Seq<char>)
    ensures
        matches_of(Seq::<EntryView>::empty(), text) == Seq::<StepView>::empty(),
{
    assert(matches_of(Seq::<EntryView>::empty(), text) =~= Seq::<StepView>::empty());
}

/// Two entries that both match give two reports, the first entry's first.
pub proof fn lemma_two_matches(first: EntryView, second: EntryView, text: Seq<char>)
    requires
        regex_captures(first.regex, text) is Some,
        regex_captures(second.regex, text) is Some,
    ensures
        matches_of(seq![first, second], text) == seq![
            report(hit(first, regex_captures(first.regex, text)->Some_0)),
            report(hit(second, regex_captures(second.regex, text)->Some_0)),
        ],
{
    let both = seq![first, second];
    assert(both.drop_last() =~= seq![first]);
    assert(seq![first].drop_last() =~= Seq::<EntryView>::empty());
    assert(found_in(Seq::<EntryView>::empty(), text) =~= Seq::<StepMatchView>::empty());
    assert(found_in(seq![first], text) =~= seq![
        hit(first, regex_captures(first.regex, text)->Some_0),
    ]);
    assert(found_in(both, text) =~= seq![
        hit(first, regex_captures(first.regex, text)->Some_0),
        hit(second, regex_captures(second.regex, text)->Some_0),
    ]);
    assert(matches_of(both, text) =~= seq![
        report(hit(first, regex_captures(first.regex, text)->Some_0)),
        report(hit(second, regex_captures(second.regex, text)->Some_0)),
    ]);
}

/// A group that took no part in the match gives a capture record without
/// text and without offset.
pub proof fn lemma_absent_group(groups: Seq<Option<(usize, Seq<char>)>>, i: int)
    requires
        1 <= i < groups.len(),
        groups[i] is None,
    ensures
        capture_args(groups)[i - 1] == (StepArgView { val: None, pos: None }),
{
}

/// In a text within the limit, the offset reported for a group is the byte
/// at which the group starts, and the text of the group is the piece of the
/// text found there.
pub proof fn lemma_offset_is_start(text: Seq<char>, start: usize, part: Seq<char>)
    requires
        byte_length(text) <= text_limit(),
        lies_at(text, start, part),
    ensures
        capture_arg(Some((start, part))).pos == Some(offset_of(start)),
        offset_of(start) == start,
        offset_of(start) + byte_length(part) <= byte_length(text),
{
}

/// A group that starts at the first byte of the text, empty or not, gives a
/// capture record with offset 0.
pub proof fn lemma_group_at_start(text: Seq<char>)
    ensures
        capture_arg(Some((0usize, text))) == (StepArgView { val: Some(text), pos: Some(0u32) }),
{
}

} // verus!
