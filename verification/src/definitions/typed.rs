//! Steps whose body takes its arguments as a typed tuple.
//!
//! A [`TypedStep`] converts the arguments of an invocation into the tuple
//! its body expects. Arguments that do not convert make the step fail with
//! the prescribed message, and the body does not run.

use crate::definitions::destructuring::invoke_arg_set::{
    mismatch_failure, mismatch_text, FromInvokeArgSet, InvokeArgSetError,
};
use crate::event::request::{arguments_view, InvokeArgument, InvokeArgumentView};
use crate::event::response::{failure, InvokeResponse, InvokeResponseView};
use crate::state::{Cucumber, CucumberView, SendableStep};
use vstd::prelude::*;

verus! {

/// The body of a step that takes its arguments as a tuple of type `T`.
pub trait StepBody<World, T>: Sized {
    /// What a run of the body comes to: true when, called with this
    /// catalogue and these values on the world `before`, the body may leave
    /// the world `after` and report `r`. A body that states nothing of
    /// itself allows every outcome.
    open spec fn effect(
        &self,
        cuke: CucumberView,
        before: World,
        values: T,
        after: World,
        r: InvokeResponseView,
    ) -> bool {
        true
    }

    /// Runs the body.
    fn call(&self, cuke: &Cucumber<World, TypedStep<Self, T>>, world: &mut World, values: T) -> (r:
        InvokeResponse)
        requires
            cuke.wf(),
        ensures
            self.effect(cuke@, *old(world), values, *final(world), r@),
    ;
}

/// A step made of a typed body.
pub struct TypedStep<B, T> {
    body: B,
    values: Ghost<Option<T>>,
}

/// The failure of a step that is handed the wrong number of arguments.
pub open spec fn count_failure(expected: nat, actual: nat) -> InvokeResponseView {
    failure(
        mismatch_text(
            InvokeArgSetError::ArgCountMismatch {
                expected: expected as usize,
                actual: actual as usize,
            },
        ),
    )
}

/// The failure of a step whose argument at a position does not convert.
pub open spec fn type_failure(position: nat) -> InvokeResponseView {
    failure(mismatch_text(InvokeArgSetError::TypeMismatch { arg_idx: position as u32 }))
}

impl<B, T> TypedStep<B, T> {
    /// The body of the step.
    pub closed spec fn body_value(&self) -> B {
        self.body
    }

    /// A step around the given body.
    pub fn new(body: B) -> (r: TypedStep<B, T>)
        ensures
            r.body_value() == body,
    {
        TypedStep { body, values: Ghost(None) }
    }
}

impl<World, T: FromInvokeArgSet, B: StepBody<World, T>> SendableStep<World> for TypedStep<B, T> {
    /// A list of the wrong length, or with an argument that does not
    /// convert, gives the prescribed failure and leaves the world alone.
    /// Any other list is converted, and the body runs once on the values.
    open spec fn outcome(
        &self,
        cuke: CucumberView,
        before: World,
        args: Seq<InvokeArgumentView>,
        after: World,
        r: InvokeResponseView,
    ) -> bool {
        if args.len() != T::arity() {
            after == before && r == count_failure(T::arity(), args.len())
        } else {
            match T::first_mismatch(args) {
                Some(position) => after == before && r == type_failure(position),
                None => exists|values: T|
                    T::converts_all(args, values) && self.body_value().effect(
                        cuke,
                        before,
                        values,
                        after,
                        r,
                    ),
            }
        }
    }

    fn run(
        &self,
        cuke: &Cucumber<World, TypedStep<B, T>>,
        world: &mut World,
        args: Vec<InvokeArgument>,
    ) -> (r: InvokeResponse) {
        match T::from_invoke_arg_set(args) {
            Ok(values) => {
                let r = self.body.call(cuke, world, values);
                assert(T::converts_all(arguments_view(args@), values) && self.body_value().effect(
                    cuke@,
                    *old(world),
                    values,
                    *world,
                    r@,
                ));
                r
            },
            Err(error) => mismatch_failure(&error),
        }
    }
}

/// A typed step that is handed the wrong number of arguments fails with
/// the message that names both numbers, and its body does not touch the
/// world.
pub proof fn lemma_wrong_count_fails<World, T: FromInvokeArgSet, B: StepBody<World, T>>(
    step: TypedStep<B, T>,
    cuke: CucumberView,
    before: World,
    args: Seq<InvokeArgumentView>,
    after: World,
    r: InvokeResponseView,
)
    requires
        args.len() != T::arity(),
        step.outcome(cuke, before, args, after, r),
    ensures
        after == before,
        r == count_failure(T::arity(), args.len()),
{
}

/// A typed step with an argument that does not convert fails with the
/// message that names the first such position, and its body does not touch
/// the world.
pub proof fn lemma_wrong_type_fails<World, T: FromInvokeArgSet, B: StepBody<World, T>>(
    step: TypedStep<B, T>,
    cuke: CucumberView,
    before: World,
    args: Seq<InvokeArgumentView>,
    after: World,
    r: InvokeResponseView,
    position: nat,
)
    requires
        args.len() == T::arity(),
        T::first_mismatch(args) == Some(position),
        step.outcome(cuke, before, args, after, r),
    ensures
        after == before,
        r == type_failure(position),
{
}

} // verus!
