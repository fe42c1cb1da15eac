//! Registration of step definitions.
//!
//! The three operations differ in name only: the catalogue makes no
//! difference between the keywords when it matches a step text.

use crate::decimal::{decimal, decimal_text};
use crate::state::{inserted, Cucumber, CucumberView, StepId};
use regex::Regex;
use vstd::prelude::*;

verus! {

/// The source location of a step definition: the file, a colon, the line.
pub open spec fn location(file: Seq<char>, line: u32) -> Seq<char> {
    file + ":"@ + decimal_text(line as nat)
}

/// Writes the source location of a step definition.
pub fn source_location(file: &str, line: u32) -> (r: String)
    ensures
        r@ == location(file@, line),
{
    let mut text = file.to_owned();
    text.append(":");
    let number = decimal(line as u64);
    text.append(number.as_str());
    text
}

/// What a registration does to the catalogue: the step gets the next id,
/// its expression goes last in the matching order, and it answers with the
/// given source location.
pub open spec fn registers(before: CucumberView, after: CucumberView, regex: Regex, source: Seq<char>) -> bool {
    after == inserted(before, regex, source)
}

/// Something that step definitions are registered with.
pub trait CucumberRegistrar<World, S> {
    /// The catalogue the steps go to.
    spec fn catalogue(&self) -> CucumberView;

    /// True when the catalogue is sound and has room for one more step.
    spec fn takes_steps(&self) -> bool;

    /// The step registered under an id.
    spec fn registered(&self, id: StepId) -> Option<S>;

    /// Registers a step under the keyword Given.
    fn given(&mut self, file: &str, line: u32, regex: Regex, step: S)
        requires
            old(self).takes_steps(),
        ensures
            registers(
                old(self).catalogue(),
                final(self).catalogue(),
                regex,
                location(file@, line),
            ),
            old(self).catalogue().step_count + 1 < u32::MAX ==> final(self).takes_steps(),
            final(self).registered(old(self).catalogue().step_count as StepId) == Some(step),
            forall|id: StepId|
                id < old(self).catalogue().step_count ==> final(self).registered(id) == old(
                    self,
                ).registered(id),
    ;

    /// Registers a step under the keyword When.
    fn when(&mut self, file: &str, line: u32, regex: Regex, step: S)
        requires
            old(self).takes_steps(),
        ensures
            registers(
                old(self).catalogue(),
                final(self).catalogue(),
                regex,
                location(file@, line),
            ),
            old(self).catalogue().step_count + 1 < u32::MAX ==> final(self).takes_steps(),
            final(self).registered(old(self).catalogue().step_count as StepId) == Some(step),
            forall|id: StepId|
                id < old(self).catalogue().step_count ==> final(self).registered(id) == old(
                    self,
                ).registered(id),
    ;

    /// Registers a step under the keyword Then.
    fn then(&mut self, file: &str, line: u32, regex: Regex, step: S)
        requires
            old(self).takes_steps(),
        ensures
            registers(
                old(self).catalogue(),
                final(self).catalogue(),
                regex,
                location(file@, line),
            ),
            old(self).catalogue().step_count + 1 < u32::MAX ==> final(self).takes_steps(),
            final(self).registered(old(self).catalogue().step_count as StepId) == Some(step),
            forall|id: StepId|
                id < old(self).catalogue().step_count ==> final(self).registered(id) == old(
                    self,
                ).registered(id),
    ;
}

impl<World, S> CucumberRegistrar<World, S> for Cucumber<World, S> {
    open spec fn catalogue(&self) -> CucumberView {
        self@
    }

    open spec fn takes_steps(&self) -> bool {
        self.wf() && self@.step_count < u32::MAX
    }

    open spec fn registered(&self, id: StepId) -> Option<S> {
        self.step_at(id)
    }

    fn given(&mut self, file: &str, line: u32, regex: Regex, step: S) {
        self.insert_step(source_location(file, line), regex, step)
    }

    fn when(&mut self, file: &str, line: u32, regex: Regex, step: S) {
        self.insert_step(source_location(file, line), regex, step)
    }

    fn then(&mut self, file: &str, line: u32, regex: Regex, step: S) {
        self.insert_step(source_location(file, line), regex, step)
    }
}

} // verus!
