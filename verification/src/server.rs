//! The line protocol spoken with one connected driver.
//!
//! The server owns a [`CommandRunner`]. For every line read from the driver
//! it decides what goes back on the wire, and for every turn of its loop
//! whether the loop goes on. Reading and writing the socket is left to the
//! program around the library.

use crate::event::json::texts_view;
use crate::event::request::{decode_request, decoding};
use crate::event::response::{encode_response, response_text, ResponseView};
use crate::runner::{answers, executable, tags_after, CommandRunner};
use vstd::prelude::*;

verus! {

/// The link between a driver and a runner.
pub struct Server<R: CommandRunner> {
    runner: R,
}

/// What a look at the stop channel found.
#[derive(Eq, PartialEq, Clone, Copy, Debug)]
pub enum StopPoll {
    /// A stop signal was waiting.
    Signalled,
    /// The other end of the channel is gone.
    Disconnected,
    /// Nothing was waiting.
    Quiet,
}

/// What an attempt to read a line from the driver gave.
#[derive(Eq, PartialEq, Clone, Debug)]
pub enum ReadResult {
    /// A line, with its newline if it had one.
    Line(String),
    /// Nothing more: the driver has closed the connection.
    Closed,
    /// The read failed or timed out.
    Failed,
}

/// What the loop does after a read.
#[derive(Eq, PartialEq, Clone, Debug)]
pub enum Action {
    /// Write this text to the driver and go on.
    Send(String),
    /// Write nothing and go on.
    Continue,
    /// Leave the loop.
    Exit,
    /// The request cannot be carried out: it names a step that does not
    /// exist, or asks to match a text beyond the limit. The server gives up.
    Abort,
}

/// Mathematical model of an [`Action`].
pub enum ActionView {
    Send(Seq<char>),
    Continue,
    Exit,
    Abort,
}

impl View for Action {
    type V = ActionView;

    open spec fn view(&self) -> ActionView {
        match self {
            Action::Send(text) => ActionView::Send(text@),
            Action::Continue => ActionView::Continue,
            Action::Exit => ActionView::Exit,
            Action::Abort => ActionView::Abort,
        }
    }
}

/// The address the server listens on when none is given.
pub open spec fn default_address() -> Seq<char> {
    "0.0.0.0:7878"@
}

/// The text written for a response: its JSON and a newline.
pub open spec fn reply_text(response: ResponseView) -> Seq<char> {
    response_text(response) + "\n"@
}

/// What a line comes to. A line that is no request is skipped: nothing is
/// sent and the runner stays as it is. A request that cannot be carried out
/// makes the server give up, the runner untouched. Any other request is
/// carried out by the runner once, and the reply is the line of its
/// response.
pub open spec fn line_effect<R: CommandRunner>(
    before: R,
    line: Seq<char>,
    after: R,
    action: ActionView,
) -> bool {
    match decoding(line) {
        Err(_) => action == ActionView::Continue && after == before,
        Ok(req) => if executable(before.registry(), req) {
            exists|response: ResponseView|
                R::carried_out(before, req, after, response) && answers(
                    before.registry(),
                    req,
                    response,
                ) && action == ActionView::Send(reply_text(response))
        } else {
            action == ActionView::Abort && after == before
        },
    }
}

/// The active tags after a line.
pub open spec fn tags_after_line<R: CommandRunner>(before: R, line: Seq<char>) -> Seq<Seq<char>> {
    match decoding(line) {
        Ok(req) => if executable(before.registry(), req) {
            tags_after(before.registry().tags, req)
        } else {
            before.registry().tags
        },
        Err(_) => before.registry().tags,
    }
}

/// What a line does to the catalogue: entries and steps stay, and the
/// active tags follow the request.
pub open spec fn catalogue_after_line<R: CommandRunner>(before: R, line: Seq<char>, after: R) -> bool {
    &&& after.registry().entries == before.registry().entries
    &&& after.registry().step_count == before.registry().step_count
    &&& after.registry().tags == tags_after_line(before, line)
}

/// The models of a sequence of actions.
pub open spec fn actions_view(actions: Seq<Action>) -> Seq<ActionView> {
    actions.map_values(|a: Action| a@)
}

/// True when `states` are the runners that a run of lines goes through:
/// each line is handled on the runner that the line before it left, and
/// gives the action at its own place.
pub open spec fn trace<R: CommandRunner>(
    states: Seq<R>,
    lines: Seq<Seq<char>>,
    actions: Seq<ActionView>,
) -> bool {
    &&& states.len() == lines.len() + 1
    &&& actions.len() == lines.len()
    &&& forall|i: int|
        0 <= i < lines.len() ==> line_effect(
            states[i],
            lines[i],
            states[i + 1],
            #[trigger] actions[i],
        )
}

/// What a run of lines comes to: the lines are handled one after the other,
/// in their order, from the runner `before` to the runner `after`, and
/// their actions come in the same order.
pub open spec fn conversation<R: CommandRunner>(
    before: R,
    lines: Seq<Seq<char>>,
    after: R,
    actions: Seq<ActionView>,
) -> bool {
    exists|states: Seq<R>|
        #[trigger] trace(states, lines, actions) && states[0] == before && states.last() == after
}

impl<R: CommandRunner> Server<R> {
    /// The runner of the server.
    pub closed spec fn runner_value(&self) -> R {
        self.runner
    }

    /// A server around the given runner.
    pub fn new(runner: R) -> (r: Server<R>)
        ensures
            r.runner_value() == runner,
    {
        Server { runner }
    }

    /// The runner of the server.
    pub fn runner(&self) -> (r: &R)
        ensures
            *r == self.runner_value(),
    {
        &self.runner
    }

    /// The address to listen on: the one given, or `0.0.0.0:7878`.
    pub fn address(addr: Option<&'static str>) -> (r: &'static str)
        ensures
            r@ == (match addr {
                Some(a) => a@,
                None => default_address(),
            }),
    {
        match addr {
            Some(a) => a,
            None => "0.0.0.0:7878",
        }
    }

    /// True when the loop has to end before it reads: a stop signal came,
    /// or nobody is left to send one.
    pub fn should_stop(poll: StopPoll) -> (r: bool)
        ensures
            r == (poll == StopPoll::Signalled || poll == StopPoll::Disconnected),
    {
        match poll {
            StopPoll::Signalled => true,
            StopPoll::Disconnected => true,
            StopPoll::Quiet => false,
        }
    }

    /// Handles one line from the driver. A line that is no request is
    /// skipped without a reply; a request is carried out by the runner, once,
    /// and answered with one line.
    pub fn handle_line(&mut self, line: &str) -> (r: Action)
        requires
            old(self).runner_value().ready(),
        ensures
            final(self).runner_value().ready(),
            line_effect(old(self).runner_value(), line@, final(self).runner_value(), r@),
            catalogue_after_line(old(self).runner_value(), line@, final(self).runner_value()),
    {
        match decode_request(line) {
            Ok(request) => {
                if self.runner.can_execute(&request) {
                    let ghost req = request@;
                    let response = self.runner.execute_cmd(request);
                    let mut text = encode_response(&response);
                    text.append("\n");
                    assert(R::carried_out(
                        old(self).runner_value(),
                        req,
                        self.runner_value(),
                        response@,
                    ) && answers(old(self).runner_value().registry(), req, response@));
                    Action::Send(text)
                } else {
                    Action::Abort
                }
            },
            Err(_) => Action::Continue,
        }
    }

    /// Handles lines in the order they were read and collects what each of
    /// them comes to. The server stops at the first request that cannot be
    /// carried out; the lines after it are not looked at.
    pub fn handle_lines(&mut self, lines: &Vec<String>) -> (r: Vec<Action>)
        requires
            old(self).runner_value().ready(),
        ensures
            final(self).runner_value().ready(),
            r@.len() <= lines@.len(),
            conversation(
                old(self).runner_value(),
                texts_view(lines@).take(r@.len() as int),
                final(self).runner_value(),
                actions_view(r@),
            ),
            r@.len() == lines@.len() || (r@.len() > 0 && r@.last()@ == ActionView::Abort),
            forall|k: int| 0 <= k < r@.len() - 1 ==> (#[trigger] r@[k])@ != ActionView::Abort,
    {
        let ghost texts = texts_view(lines@);
        let ghost mut states: Seq<R> = seq![self.runner_value()];
        let mut out: Vec<Action> = Vec::new();
        let mut i: usize = 0;
        while i < lines.len()
            invariant
                i <= lines@.len(),
                out@.len() == i,
                texts == texts_view(lines@),
                self.runner_value().ready(),
                trace(states, texts.take(i as int), actions_view(out@)),
                states[0] == old(self).runner_value(),
                states.last() == self.runner_value(),
                forall|k: int| 0 <= k < i ==> (#[trigger] out@[k])@ != ActionView::Abort,
            decreases lines@.len() - i,
        {
            let ghost earlier = states;
            let ghost done = actions_view(out@);
            let action = self.handle_line(lines[i].as_str());
            let stop = match &action {
                Action::Abort => true,
                _ => false,
            };
            out.push(action);
            proof {
                states = earlier.push(self.runner_value());
                let now = actions_view(out@);
                let upto = texts.take(i + 1);
                assert(upto[i as int] == lines@[i as int]@);
                assert forall|j: int| 0 <= j < upto.len() implies line_effect(
                    states[j],
                    upto[j],
                    states[j + 1],
                    #[trigger] now[j],
                ) by {
                    if j < i {
                        assert(now[j] == done[j]);
                        assert(upto[j] == texts.take(i as int)[j]);
                        assert(states[j] == earlier[j]);
                        assert(states[j + 1] == earlier[j + 1]);
                    }
                }
            }
            i += 1;
            if stop {
                return out;
            }
        }
        assert(texts.take(lines@.len() as int) =~= texts);
        out
    }

    /// Decides what the loop does after a read: a closed connection ends it,
    /// a failed read changes nothing, and a line is handled.
    pub fn on_read(&mut self, read: ReadResult) -> (r: Action)
        requires
            old(self).runner_value().ready(),
        ensures
            final(self).runner_value().ready(),
            match read {
                ReadResult::Line(line) => line_effect(
                    old(self).runner_value(),
                    line@,
                    final(self).runner_value(),
                    r@,
                ) && catalogue_after_line(
                    old(self).runner_value(),
                    line@,
                    final(self).runner_value(),
                ),
                ReadResult::Closed => r@ == ActionView::Exit && final(self).runner_value() == old(
                    self,
                ).runner_value(),
                ReadResult::Failed => r@ == ActionView::Continue && final(self).runner_value()
                    == old(self).runner_value(),
            },
    {
        match read {
            ReadResult::Line(line) => self.handle_line(line.as_str()),
            ReadResult::Closed => Action::Exit,
            ReadResult::Failed => Action::Continue,
        }
    }
}

} // verus!
