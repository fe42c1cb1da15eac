//! Conversion of an argument list into a tuple of typed values.

use crate::decimal::{decimal, decimal_text};
use crate::definitions::destructuring::invoke_arg::FromInvokeArg;
use crate::event::request::{arguments_view, InvokeArgument, InvokeArgumentView};
use crate::event::response::{failure, InvokeResponse};
use vstd::prelude::*;

verus! {

/// Why an argument list does not convert into a tuple.
#[derive(Debug, Clone, PartialEq)]
pub enum InvokeArgSetError {
    /// The argument at this position has the wrong shape or does not parse.
    TypeMismatch { arg_idx: u32 },
    /// The list does not have as many arguments as the tuple has fields.
    ArgCountMismatch { expected: usize, actual: usize },
}

/// A tuple that an argument list converts to.
pub trait FromInvokeArgSet: Sized {
    /// The number of arguments the tuple takes.
    spec fn arity() -> nat;

    /// The first position whose argument does not convert, in a list of the
    /// right length.
    spec fn first_mismatch(args: Seq<InvokeArgumentView>) -> Option<nat>;

    /// True when `value` holds, field by field, what the arguments of a list
    /// of the right length convert to.
    spec fn converts_all(args: Seq<InvokeArgumentView>, value: Self) -> bool;

    /// Converts the list: a list of the wrong length is a count mismatch, the
    /// first argument that does not convert is a type mismatch at its
    /// position, and any other list gives the tuple.
    fn from_invoke_arg_set(args: Vec<InvokeArgument>) -> (r: Result<Self, InvokeArgSetError>)
        ensures
            args@.len() != Self::arity() ==> r == Err::<Self, InvokeArgSetError>(
                InvokeArgSetError::ArgCountMismatch {
                    expected: Self::arity() as usize,
                    actual: args@.len() as usize,
                },
            ),
            args@.len() == Self::arity() ==> match Self::first_mismatch(arguments_view(args@)) {
                Some(i) => r == Err::<Self, InvokeArgSetError>(
                    InvokeArgSetError::TypeMismatch { arg_idx: i as u32 },
                ),
                None => r matches Ok(value) && Self::converts_all(arguments_view(args@), value),
            },
    ;
}

/// What the conversion of an argument list comes to.
pub open spec fn set_outcome<T: FromInvokeArgSet>(
    args: Seq<InvokeArgumentView>,
    r: Result<T, InvokeArgSetError>,
) -> bool {
    if args.len() != T::arity() {
        r == Err::<T, InvokeArgSetError>(
            InvokeArgSetError::ArgCountMismatch {
                expected: T::arity() as usize,
                actual: args.len() as usize,
            },
        )
    } else {
        match T::first_mismatch(args) {
            Some(i) => r == Err::<T, InvokeArgSetError>(
                InvokeArgSetError::TypeMismatch { arg_idx: i as u32 },
            ),
            None => r matches Ok(value) && T::converts_all(args, value),
        }
    }
}

/// An argument list that converts into tuples.
pub trait DestructurableSet: Sized {
    /// The arguments this value stands for.
    spec fn arguments(&self) -> Seq<InvokeArgumentView>;

    /// Converts the list into the tuple asked for.
    fn destructure_set<T: FromInvokeArgSet>(self) -> (r: Result<T, InvokeArgSetError>)
        ensures
            set_outcome::<T>(self.arguments(), r),
    ;
}

impl DestructurableSet for Vec<InvokeArgument> {
    open spec fn arguments(&self) -> Seq<InvokeArgumentView> {
        arguments_view(self@)
    }

    fn destructure_set<T: FromInvokeArgSet>(self) -> (r: Result<T, InvokeArgSetError>) {
        T::from_invoke_arg_set(self)
    }
}

/// The message a step fails with when its arguments do not convert.
pub open spec fn mismatch_text(error: InvokeArgSetError) -> Seq<char> {
    match error {
        InvokeArgSetError::TypeMismatch { arg_idx } => "Argument in position ["@ + decimal_text(
            arg_idx as nat,
        ) + "] did not have the correct type or was unparseable"@,
        InvokeArgSetError::ArgCountMismatch { expected, actual } => "Expected ["@ + decimal_text(
            expected as nat,
        ) + "] arguments, but found ["@ + decimal_text(actual as nat) + "] in step definition"@,
    }
}

/// The failed outcome of a step whose arguments do not convert.
pub fn mismatch_failure(error: &InvokeArgSetError) -> (r: InvokeResponse)
    ensures
        r@ == failure(mismatch_text(*error)),
{
    match error {
        InvokeArgSetError::TypeMismatch { arg_idx } => {
            let mut text = "Argument in position [".to_owned();
            let position = decimal(*arg_idx as u64);
            text.append(position.as_str());
            text.append("] did not have the correct type or was unparseable");
            InvokeResponse::fail_from_str(text.as_str())
        },
        InvokeArgSetError::ArgCountMismatch { expected, actual } => {
            let mut text = "Expected [".to_owned();
            let wanted = decimal(*expected as u64);
            text.append(wanted.as_str());
            text.append("] arguments, but found [");
            let found = decimal(*actual as u64);
            text.append(found.as_str());
            text.append("] in step definition");
            InvokeResponse::fail_from_str(text.as_str())
        },
    }
}

/// Converts the arguments of a step into the tuple its body takes, or gives
/// the failed outcome the step answers with.
pub fn try_destructure<T: FromInvokeArgSet>(args: Vec<InvokeArgument>) -> (r: Result<T, InvokeResponse>)
    ensures
        match r {
            Ok(value) => set_outcome::<T>(arguments_view(args@), Ok(value)),
            Err(failed) => exists|error: InvokeArgSetError|
                set_outcome::<T>(arguments_view(args@), Err(error)) && failed@ == failure(
                    mismatch_text(error),
                ),
        },
{
    match T::from_invoke_arg_set(args) {
        Ok(value) => Ok(value),
        Err(error) => {
            let failed = mismatch_failure(&error);
            assert(set_outcome::<T>(arguments_view(args@), Err(error)));
            Err(failed)
        },
    }
}

/// Takes the argument at a position out of the list and leaves the absent
/// argument in its place.
fn take_arg(args: &mut Vec<InvokeArgument>, i: usize) -> (r: InvokeArgument)
    requires
        i < old(args)@.len(),
    ensures
        r == old(args)@[i as int],
        final(args)@ == old(args)@.update(i as int, InvokeArgument::Absent),
{
    let mut slot = InvokeArgument::Absent;
    args.set_and_swap(i, &mut slot);
    slot
}

impl FromInvokeArgSet for () {
    open spec fn arity() -> nat {
        0
    }

    open spec fn first_mismatch(args: Seq<InvokeArgumentView>) -> Option<nat> {
        None
    }

    open spec fn converts_all(args: Seq<InvokeArgumentView>, value: ()) -> bool {
        true
    }

    fn from_invoke_arg_set(args: Vec<InvokeArgument>) -> (r: Result<(), InvokeArgSetError>) {
        if args.len() != 0 {
            return Err(InvokeArgSetError::ArgCountMismatch { expected: 0, actual: args.len() });
        }
        Ok(())
    }
}

impl<A> FromInvokeArgSet for (A,) where A: FromInvokeArg {
    open spec fn arity() -> nat {
        1
    }

    open spec fn first_mismatch(args: Seq<InvokeArgumentView>) -> Option<nat> {
        if !A::convertible(args[0]) {
            Some(0nat)
        } else {
            None
        }
    }

    open spec fn converts_all(args: Seq<InvokeArgumentView>, value: (A,)) -> bool {
        &&& A::converts(args[0], value.0)
    }

    fn from_invoke_arg_set(args: Vec<InvokeArgument>) -> (r: Result<(A,), InvokeArgSetError>) {
        let mut args = args;
        if args.len() != 1 {
            return Err(InvokeArgSetError::ArgCountMismatch { expected: 1, actual: args.len() });
        }
        let ghost given = args@;
        let v0 = match A::from_invoke_arg(take_arg(&mut args, 0)) {
            Ok(value) => value,
            Err(_) => {
                return Err(InvokeArgSetError::TypeMismatch { arg_idx: 0 });
            },
        };
        Ok((v0,))
    }
}

impl<A, B> FromInvokeArgSet for (A, B) where A: FromInvokeArg, B: FromInvokeArg {
    open spec fn arity() -> nat {
        2
    }

    open spec fn first_mismatch(args: Seq<InvokeArgumentView>) -> Option<nat> {
        if !A::convertible(args[0]) {
            Some(0nat)
        } else if !B::convertible(args[1]) {
            Some(1nat)
        } else {
            None
        }
    }

    open spec fn converts_all(args: Seq<InvokeArgumentView>, value: (A, B)) -> bool {
        &&& A::converts(args[0], value.0)
        &&& B::converts(args[1], value.1)
    }

    fn from_invoke_arg_set(args: Vec<InvokeArgument>) -> (r: Result<(A, B), InvokeArgSetError>) {
        let mut args = args;
        if args.len() != 2 {
            return Err(InvokeArgSetError::ArgCountMismatch { expected: 2, actual: args.len() });
        }
        let ghost given = args@;
        let v0 = match A::from_invoke_arg(take_arg(&mut args, 0)) {
            Ok(value) => value,
            Err(_) => {
                return Err(InvokeArgSetError::TypeMismatch { arg_idx: 0 });
            },
        };
        let v1 = match B::from_invoke_arg(take_arg(&mut args, 1)) {
            Ok(value) => value,
            Err(_) => {
                return Err(InvokeArgSetError::TypeMismatch { arg_idx: 1 });
            },
        };
        Ok((v0, v1))
    }
}

impl<A, B, C> FromInvokeArgSet for (A, B, C) where A: FromInvokeArg, B: FromInvokeArg, C: FromInvokeArg {
    open spec fn arity() -> nat {
        3
    }

    open spec fn first_mismatch(args: Seq<InvokeArgumentView>) -> Option<nat> {
        if !A::convertible(args[0]) {
            Some(0nat)
        } else if !B::convertible(args[1]) {
            Some(1nat)
        } else if !C::convertible(args[2]) {
            Some(2nat)
        } else {
            None
        }
    }

    open spec fn converts_all(args: Seq<InvokeArgumentView>, value: (A, B, C)) -> bool {
        &&& A::converts(args[0], value.0)
        &&& B::converts(args[1], value.1)
        &&& C::converts(args[2], value.2)
    }

    fn from_invoke_arg_set(args: Vec<InvokeArgument>) -> (r: Result<(A, B, C), InvokeArgSetError>) {
        let mut args = args;
        if args.len() != 3 {
            return Err(InvokeArgSetError::ArgCountMismatch { expected: 3, actual: args.len() });
        }
        let ghost given = args@;
        let v0 = match A::from_invoke_arg(take_arg(&mut args, 0)) {
            Ok(value) => value,
            Err(_) => {
                return Err(InvokeArgSetError::TypeMismatch { arg_idx: 0 });
            },
        };
        let v1 = match B::from_invoke_arg(take_arg(&mut args, 1)) {
            Ok(value) => value,
            Err(_) => {
                return Err(InvokeArgSetError::TypeMismatch { arg_idx: 1 });
            },
        };
        let v2 = match C::from_invoke_arg(take_arg(&mut args, 2)) {
            Ok(value) => value,
            Err(_) => {
                return Err(InvokeArgSetError::TypeMismatch { arg_idx: 2 });
            },
        };
        Ok((v0, v1, v2))
    }
}

impl<A, B, C, D> FromInvokeArgSet for (A, B, C, D) where A: FromInvokeArg, B: FromInvokeArg, C: FromInvokeArg, D: FromInvokeArg {
    open spec fn arity() -> nat {
        4
    }

    open spec fn first_mismatch(args: Seq<InvokeArgumentView>) -> Option<nat> {
        if !A::convertible(args[0]) {
            Some(0nat)
        } else if !B::convertible(args[1]) {
            Some(1nat)
        } else if !C::convertible(args[2]) {
            Some(2nat)
        } else if !D::convertible(args[3]) {
            Some(3nat)
        } else {
            None
        }
    }

    open spec fn converts_all(args: Seq<InvokeArgumentView>, value: (A, B, C, D)) -> bool {
        &&& A::converts(args[0], value.0)
        &&& B::converts(args[1], value.1)
        &&& C::converts(args[2], value.2)
        &&& D::converts(args[3], value.3)
    }

    fn from_invoke_arg_set(args: Vec<InvokeArgument>) -> (r: Result<(A, B, C, D), InvokeArgSetError>) {
        let mut args = args;
        if args.len() != 4 {
            return Err(InvokeArgSetError::ArgCountMismatch { expected: 4, actual: args.len() });
        }
        let ghost given = args@;
        let v0 = match A::from_invoke_arg(take_arg(&mut args, 0)) {
            Ok(value) => value,
            Err(_) => {
                return Err(InvokeArgSetError::TypeMismatch { arg_idx: 0 });
            },
        };
        let v1 = match B::from_invoke_arg(take_arg(&mut args, 1)) {
            Ok(value) => value,
            Err(_) => {
                return Err(InvokeArgSetError::TypeMismatch { arg_idx: 1 });
            },
        };
        let v2 = match C::from_invoke_arg(take_arg(&mut args, 2)) {
            Ok(value) => value,
            Err(_) => {
                return Err(InvokeArgSetError::TypeMismatch { arg_idx: 2 });
            },
        };
        let v3 = match D::from_invoke_arg(take_arg(&mut args, 3)) {
            Ok(value) => value,
            Err(_) => {
                return Err(InvokeArgSetError::TypeMismatch { arg_idx: 3 });
            },
        };
        Ok((v0, v1, v2, v3))
    }
}

impl<A, B, C, D, E> FromInvokeArgSet for (A, B, C, D, E) where A: FromInvokeArg, B: FromInvokeArg, C: FromInvokeArg, D: FromInvokeArg, E: FromInvokeArg {
    open spec fn arity() -> nat {
        5
    }

    open spec fn first_mismatch(args: Seq<InvokeArgumentView>) -> Option<nat> {
        if !A::convertible(args[0]) {
            Some(0nat)
        } else if !B::convertible(args[1]) {
            Some(1nat)
        } else if !C::convertible(args[2]) {
            Some(2nat)
        } else if !D::convertible(args[3]) {
            Some(3nat)
        } else if !E::convertible(args[4]) {
            Some(4nat)
        } else {
            None
        }
    }

    open spec fn converts_all(args: Seq<InvokeArgumentView>, value: (A, B, C, D, E)) -> bool {
        &&& A::converts(args[0], value.0)
        &&& B::converts(args[1], value.1)
        &&& C::converts(args[2], value.2)
        &&& D::converts(args[3], value.3)
        &&& E::converts(args[4], value.4)
    }

    fn from_invoke_arg_set(args: Vec<InvokeArgument>) -> (r: Result<(A, B, C, D, E), InvokeArgSetError>) {
        let mut args = args;
        if args.len() != 5 {
            return Err(InvokeArgSetError::ArgCountMismatch { expected: 5, actual: args.len() });
        }
        let ghost given = args@;
        let v0 = match A::from_invoke_arg(take_arg(&mut args, 0)) {
            Ok(value) => value,
            Err(_) => {
                return Err(InvokeArgSetError::TypeMismatch { arg_idx: 0 });
            },
        };
        let v1 = match B::from_invoke_arg(take_arg(&mut args, 1)) {
            Ok(value) => value,
            Err(_) => {
                return Err(InvokeArgSetError::TypeMismatch { arg_idx: 1 });
            },
        };
        let v2 = match C::from_invoke_arg(take_arg(&mut args, 2)) {
            Ok(value) => value,
            Err(_) => {
                return Err(InvokeArgSetError::TypeMismatch { arg_idx: 2 });
            },
        };
        let v3 = match D::from_invoke_arg(take_arg(&mut args, 3)) {
            Ok(value) => value,
            Err(_) => {
                return Err(InvokeArgSetError::TypeMismatch { arg_idx: 3 });
            },
        };
        let v4 = match E::from_invoke_arg(take_arg(&mut args, 4)) {
            Ok(value) => value,
            Err(_) => {
                return Err(InvokeArgSetError::TypeMismatch { arg_idx: 4 });
            },
        };
        Ok((v0, v1, v2, v3, v4))
    }
}

impl<A, B, C, D, E, F> FromInvokeArgSet for (A, B, C, D, E, F) where A: FromInvokeArg, B: FromInvokeArg, C: FromInvokeArg, D: FromInvokeArg, E: FromInvokeArg, F: FromInvokeArg {
    open spec fn arity() -> nat {
        6
    }

    open spec fn first_mismatch(args: Seq<InvokeArgumentView>) -> Option<nat> {
        if !A::convertible(args[0]) {
            Some(0nat)
        } else if !B::convertible(args[1]) {
            Some(1nat)
        } else if !C::convertible(args[2]) {
            Some(2nat)
        } else if !D::convertible(args[3]) {
            Some(3nat)
        } else if !E::convertible(args[4]) {
            Some(4nat)
        } else if !F::convertible(args[5]) {
            Some(5nat)
        } else {
            None
        }
    }

    open spec fn converts_all(args: Seq<InvokeArgumentView>, value: (A, B, C, D, E, F)) -> bool {
        &&& A::converts(args[0], value.0)
        &&& B::converts(args[1], value.1)
        &&& C::converts(args[2], value.2)
        &&& D::converts(args[3], value.3)
        &&& E::converts(args[4], value.4)
        &&& F::converts(args[5], value.5)
    }

    fn from_invoke_arg_set(args: Vec<InvokeArgument>) -> (r: Result<(A, B, C, D, E, F), InvokeArgSetError>) {
        let mut args = args;
        if args.len() != 6 {
            return Err(InvokeArgSetError::ArgCountMismatch { expected: 6, actual: args.len() });
        }
        let ghost given = args@;
        let v0 = match A::from_invoke_arg(take_arg(&mut args, 0)) {
            Ok(value) => value,
            Err(_) => {
                return Err(InvokeArgSetError::TypeMismatch { arg_idx: 0 });
            },
        };
        let v1 = match B::from_invoke_arg(take_arg(&mut args, 1)) {
            Ok(value) => value,
            Err(_) => {
                return Err(InvokeArgSetError::TypeMismatch { arg_idx: 1 });
            },
        };
        let v2 = match C::from_invoke_arg(take_arg(&mut args, 2)) {
            Ok(value) => value,
            Err(_) => {
                return Err(InvokeArgSetError::TypeMismatch { arg_idx: 2 });
            },
        };
        let v3 = match D::from_invoke_arg(take_arg(&mut args, 3)) {
            Ok(value) => value,
            Err(_) => {
                return Err(InvokeArgSetError::TypeMismatch { arg_idx: 3 });
            },
        };
        let v4 = match E::from_invoke_arg(take_arg(&mut args, 4)) {
            Ok(value) => value,
            Err(_) => {
                return Err(InvokeArgSetError::TypeMismatch { arg_idx: 4 });
            },
        };
        let v5 = match F::from_invoke_arg(take_arg(&mut args, 5)) {
            Ok(value) => value,
            Err(_) => {
                return Err(InvokeArgSetError::TypeMismatch { arg_idx: 5 });
            },
        };
        Ok((v0, v1, v2, v3, v4, v5))
    }
}

impl<A, B, C, D, E, F, G> FromInvokeArgSet for (A, B, C, D, E, F, G) where A: FromInvokeArg, B: FromInvokeArg, C: FromInvokeArg, D: FromInvokeArg, E: FromInvokeArg, F: FromInvokeArg, G: FromInvokeArg {
    open spec fn arity() -> nat {
        7
    }

    open spec fn first_mismatch(args: Seq<InvokeArgumentView>) -> Option<nat> {
        if !A::convertible(args[0]) {
            Some(0nat)
        } else if !B::convertible(args[1]) {
            Some(1nat)
        } else if !C::convertible(args[2]) {
            Some(2nat)
        } else if !D::convertible(args[3]) {
            Some(3nat)
        } else if !E::convertible(args[4]) {
            Some(4nat)
        } else if !F::convertible(args[5]) {
            Some(5nat)
        } else if !G::convertible(args[6]) {
            Some(6nat)
        } else {
            None
        }
    }

    open spec fn converts_all(args: Seq<InvokeArgumentView>, value: (A, B, C, D, E, F, G)) -> bool {
        &&& A::converts(args[0], value.0)
        &&& B::converts(args[1], value.1)
        &&& C::converts(args[2], value.2)
        &&& D::converts(args[3], value.3)
        &&& E::converts(args[4], value.4)
        &&& F::converts(args[5], value.5)
        &&& G::converts(args[6], value.6)
    }

    fn from_invoke_arg_set(args: Vec<InvokeArgument>) -> (r: Result<(A, B, C, D, E, F, G), InvokeArgSetError>) {
        let mut args = args;
        if args.len() != 7 {
            return Err(InvokeArgSetError::ArgCountMismatch { expected: 7, actual: args.len() });
        }
        let ghost given = args@;
        let v0 = match A::from_invoke_arg(take_arg(&mut args, 0)) {
            Ok(value) => value,
            Err(_) => {
                return Err(InvokeArgSetError::TypeMismatch { arg_idx: 0 });
            },
        };
        let v1 = match B::from_invoke_arg(take_arg(&mut args, 1)) {
            Ok(value) => value,
            Err(_) => {
                return Err(InvokeArgSetError::TypeMismatch { arg_idx: 1 });
            },
        };
        let v2 = match C::from_invoke_arg(take_arg(&mut args, 2)) {
            Ok(value) => value,
            Err(_) => {
                return Err(InvokeArgSetError::TypeMismatch { arg_idx: 2 });
            },
        };
        let v3 = match D::from_invoke_arg(take_arg(&mut args, 3)) {
            Ok(value) => value,
            Err(_) => {
                return Err(InvokeArgSetError::TypeMismatch { arg_idx: 3 });
            },
        };
        let v4 = match E::from_invoke_arg(take_arg(&mut args, 4)) {
            Ok(value) => value,
            Err(_) => {
                return Err(InvokeArgSetError::TypeMismatch { arg_idx: 4 });
            },
        };
        let v5 = match F::from_invoke_arg(take_arg(&mut args, 5)) {
            Ok(value) => value,
            Err(_) => {
                return Err(InvokeArgSetError::TypeMismatch { arg_idx: 5 });
            },
        };
        let v6 = match G::from_invoke_arg(take_arg(&mut args, 6)) {
            Ok(value) => value,
            Err(_) => {
                return Err(InvokeArgSetError::TypeMismatch { arg_idx: 6 });
            },
        };
        Ok((v0, v1, v2, v3, v4, v5, v6))
    }
}

impl<A, B, C, D, E, F, G, H> FromInvokeArgSet for (A, B, C, D, E, F, G, H) where A: FromInvokeArg, B: FromInvokeArg, C: FromInvokeArg, D: FromInvokeArg, E: FromInvokeArg, F: FromInvokeArg, G: FromInvokeArg, H: FromInvokeArg {
    open spec fn arity() -> nat {
        8
    }

    open spec fn first_mismatch(args: Seq<InvokeArgumentView>) -> Option<nat> {
        if !A::convertible(args[0]) {
            Some(0nat)
        } else if !B::convertible(args[1]) {
            Some(1nat)
        } else if !C::convertible(args[2]) {
            Some(2nat)
        } else if !D::convertible(args[3]) {
            Some(3nat)
        } else if !E::convertible(args[4]) {
            Some(4nat)
        } else if !F::convertible(args[5]) {
            Some(5nat)
        } else if !G::convertible(args[6]) {
            Some(6nat)
        } else if !H::convertible(args[7]) {
            Some(7nat)
        } else {
            None
        }
    }

    open spec fn converts_all(args: Seq<InvokeArgumentView>, value: (A, B, C, D, E, F, G, H)) -> bool {
        &&& A::converts(args[0], value.0)
        &&& B::converts(args[1], value.1)
        &&& C::converts(args[2], value.2)
        &&& D::converts(args[3], value.3)
        &&& E::converts(args[4], value.4)
        &&& F::converts(args[5], value.5)
        &&& G::converts(args[6], value.6)
        &&& H::converts(args[7], value.7)
    }

    fn from_invoke_arg_set(args: Vec<InvokeArgument>) -> (r: Result<(A, B, C, D, E, F, G, H), InvokeArgSetError>) {
        let mut args = args;
        if args.len() != 8 {
            return Err(InvokeArgSetError::ArgCountMismatch { expected: 8, actual: args.len() });
        }
        let ghost given = args@;
        let v0 = match A::from_invoke_arg(take_arg(&mut args, 0)) {
            Ok(value) => value,
            Err(_) => {
                return Err(InvokeArgSetError::TypeMismatch { arg_idx: 0 });
            },
        };
        let v1 = match B::from_invoke_arg(take_arg(&mut args, 1)) {
            Ok(value) => value,
            Err(_) => {
                return Err(InvokeArgSetError::TypeMismatch { arg_idx: 1 });
            },
        };
        let v2 = match C::from_invoke_arg(take_arg(&mut args, 2)) {
            Ok(value) => value,
            Err(_) => {
                return Err(InvokeArgSetError::TypeMismatch { arg_idx: 2 });
            },
        };
        let v3 = match D::from_invoke_arg(take_arg(&mut args, 3)) {
            Ok(value) => value,
            Err(_) => {
                return Err(InvokeArgSetError::TypeMismatch { arg_idx: 3 });
            },
        };
        let v4 = match E::from_invoke_arg(take_arg(&mut args, 4)) {
            Ok(value) => value,
            Err(_) => {
                return Err(InvokeArgSetError::TypeMismatch { arg_idx: 4 });
            },
        };
        let v5 = match F::from_invoke_arg(take_arg(&mut args, 5)) {
            Ok(value) => value,
            Err(_) => {
                return Err(InvokeArgSetError::TypeMismatch { arg_idx: 5 });
            },
        };
        let v6 = match G::from_invoke_arg(take_arg(&mut args, 6)) {
            Ok(value) => value,
            Err(_) => {
                return Err(InvokeArgSetError::TypeMismatch { arg_idx: 6 });
            },
        };
        let v7 = match H::from_invoke_arg(take_arg(&mut args, 7)) {
            Ok(value) => value,
            Err(_) => {
                return Err(InvokeArgSetError::TypeMismatch { arg_idx: 7 });
            },
        };
        Ok((v0, v1, v2, v3, v4, v5, v6, v7))
    }
}

impl<A, B, C, D, E, F, G, H, I> FromInvokeArgSet for (A, B, C, D, E, F, G, H, I) where A: FromInvokeArg, B: FromInvokeArg, C: FromInvokeArg, D: FromInvokeArg, E: FromInvokeArg, F: FromInvokeArg, G: FromInvokeArg, H: FromInvokeArg, I: FromInvokeArg {
    open spec fn arity() -> nat {
        9
    }

    open spec fn first_mismatch(args: Seq<InvokeArgumentView>) -> Option<nat> {
        if !A::convertible(args[0]) {
            Some(0nat)
        } else if !B::convertible(args[1]) {
            Some(1nat)
        } else if !C::convertible(args[2]) {
            Some(2nat)
        } else if !D::convertible(args[3]) {
            Some(3nat)
        } else if !E::convertible(args[4]) {
            Some(4nat)
        } else if !F::convertible(args[5]) {
            Some(5nat)
        } else if !G::convertible(args[6]) {
            Some(6nat)
        } else if !H::convertible(args[7]) {
            Some(7nat)
        } else if !I::convertible(args[8]) {
            Some(8nat)
        } else {
            None
        }
    }

    open spec fn converts_all(args: Seq<InvokeArgumentView>, value: (A, B, C, D, E, F, G, H, I)) -> bool {
        &&& A::converts(args[0], value.0)
        &&& B::converts(args[1], value.1)
        &&& C::converts(args[2], value.2)
        &&& D::converts(args[3], value.3)
        &&& E::converts(args[4], value.4)
        &&& F::converts(args[5], value.5)
        &&& G::converts(args[6], value.6)
        &&& H::converts(args[7], value.7)
        &&& I::converts(args[8], value.8)
    }

    fn from_invoke_arg_set(args: Vec<InvokeArgument>) -> (r: Result<(A, B, C, D, E, F, G, H, I), InvokeArgSetError>) {
        let mut args = args;
        if args.len() != 9 {
            return Err(InvokeArgSetError::ArgCountMismatch { expected: 9, actual: args.len() });
        }
        let ghost given = args@;
        let v0 = match A::from_invoke_arg(take_arg(&mut args, 0)) {
            Ok(value) => value,
            Err(_) => {
                return Err(InvokeArgSetError::TypeMismatch { arg_idx: 0 });
            },
        };
        let v1 = match B::from_invoke_arg(take_arg(&mut args, 1)) {
            Ok(value) => value,
            Err(_) => {
                return Err(InvokeArgSetError::TypeMismatch { arg_idx: 1 });
            },
        };
        let v2 = match C::from_invoke_arg(take_arg(&mut args, 2)) {
            Ok(value) => value,
            Err(_) => {
                return Err(InvokeArgSetError::TypeMismatch { arg_idx: 2 });
            },
        };
        let v3 = match D::from_invoke_arg(take_arg(&mut args, 3)) {
            Ok(value) => value,
            Err(_) => {
                return Err(InvokeArgSetError::TypeMismatch { arg_idx: 3 });
            },
        };
        let v4 = match E::from_invoke_arg(take_arg(&mut args, 4)) {
            Ok(value) => value,
            Err(_) => {
                return Err(InvokeArgSetError::TypeMismatch { arg_idx: 4 });
            },
        };
        let v5 = match F::from_invoke_arg(take_arg(&mut args, 5)) {
            Ok(value) => value,
            Err(_) => {
                return Err(InvokeArgSetError::TypeMismatch { arg_idx: 5 });
            },
        };
        let v6 = match G::from_invoke_arg(take_arg(&mut args, 6)) {
            Ok(value) => value,
            Err(_) => {
                return Err(InvokeArgSetError::TypeMismatch { arg_idx: 6 });
            },
        };
        let v7 = match H::from_invoke_arg(take_arg(&mut args, 7)) {
            Ok(value) => value,
            Err(_) => {
                return Err(InvokeArgSetError::TypeMismatch { arg_idx: 7 });
            },
        };
        let v8 = match I::from_invoke_arg(take_arg(&mut args, 8)) {
            Ok(value) => value,
            Err(_) => {
                return Err(InvokeArgSetError::TypeMismatch { arg_idx: 8 });
            },
        };
        Ok((v0, v1, v2, v3, v4, v5, v6, v7, v8))
    }
}

impl<A, B, C, D, E, F, G, H, I, J> FromInvokeArgSet for (A, B, C, D, E, F, G, H, I, J) where A: FromInvokeArg, B: FromInvokeArg, C: FromInvokeArg, D: FromInvokeArg, E: FromInvokeArg, F: FromInvokeArg, G: FromInvokeArg, H: FromInvokeArg, I: FromInvokeArg, J: FromInvokeArg {
    open spec fn arity() -> nat {
        10
    }

    open spec fn first_mismatch(args: Seq<InvokeArgumentView>) -> Option<nat> {
        if !A::convertible(args[0]) {
            Some(0nat)
        } else if !B::convertible(args[1]) {
            Some(1nat)
        } else if !C::convertible(args[2]) {
            Some(2nat)
        } else if !D::convertible(args[3]) {
            Some(3nat)
        } else if !E::convertible(args[4]) {
            Some(4nat)
        } else if !F::convertible(args[5]) {
            Some(5nat)
        } else if !G::convertible(args[6]) {
            Some(6nat)
        } else if !H::convertible(args[7]) {
            Some(7nat)
        } else if !I::convertible(args[8]) {
            Some(8nat)
        } else if !J::convertible(args[9]) {
            Some(9nat)
        } else {
            None
        }
    }

    open spec fn converts_all(args: Seq<InvokeArgumentView>, value: (A, B, C, D, E, F, G, H, I, J)) -> bool {
        &&& A::converts(args[0], value.0)
        &&& B::converts(args[1], value.1)
        &&& C::converts(args[2], value.2)
        &&& D::converts(args[3], value.3)
        &&& E::converts(args[4], value.4)
        &&& F::converts(args[5], value.5)
        &&& G::converts(args[6], value.6)
        &&& H::converts(args[7], value.7)
        &&& I::converts(args[8], value.8)
        &&& J::converts(args[9], value.9)
    }

    fn from_invoke_arg_set(args: Vec<InvokeArgument>) -> (r: Result<(A, B, C, D, E, F, G, H, I, J), InvokeArgSetError>) {
        let mut args = args;
        if args.len() != 10 {
            return Err(InvokeArgSetError::ArgCountMismatch { expected: 10, actual: args.len() });
        }
        let ghost given = args@;
        let v0 = match A::from_invoke_arg(take_arg(&mut args, 0)) {
            Ok(value) => value,
            Err(_) => {
                return Err(InvokeArgSetError::TypeMismatch { arg_idx: 0 });
            },
        };
        let v1 = match B::from_invoke_arg(take_arg(&mut args, 1)) {
            Ok(value) => value,
            Err(_) => {
                return Err(InvokeArgSetError::TypeMismatch { arg_idx: 1 });
            },
        };
        let v2 = match C::from_invoke_arg(take_arg(&mut args, 2)) {
            Ok(value) => value,
            Err(_) => {
                return Err(InvokeArgSetError::TypeMismatch { arg_idx: 2 });
            },
        };
        let v3 = match D::from_invoke_arg(take_arg(&mut args, 3)) {
            Ok(value) => value,
            Err(_) => {
                return Err(InvokeArgSetError::TypeMismatch { arg_idx: 3 });
            },
        };
        let v4 = match E::from_invoke_arg(take_arg(&mut args, 4)) {
            Ok(value) => value,
            Err(_) => {
                return Err(InvokeArgSetError::TypeMismatch { arg_idx: 4 });
            },
        };
        let v5 = match F::from_invoke_arg(take_arg(&mut args, 5)) {
            Ok(value) => value,
            Err(_) => {
                return Err(InvokeArgSetError::TypeMismatch { arg_idx: 5 });
            },
        };
        let v6 = match G::from_invoke_arg(take_arg(&mut args, 6)) {
            Ok(value) => value,
            Err(_) => {
                return Err(InvokeArgSetError::TypeMismatch { arg_idx: 6 });
            },
        };
        let v7 = match H::from_invoke_arg(take_arg(&mut args, 7)) {
            Ok(value) => value,
            Err(_) => {
                return Err(InvokeArgSetError::TypeMismatch { arg_idx: 7 });
            },
        };
        let v8 = match I::from_invoke_arg(take_arg(&mut args, 8)) {
            Ok(value) => value,
            Err(_) => {
                return Err(InvokeArgSetError::TypeMismatch { arg_idx: 8 });
            },
        };
        let v9 = match J::from_invoke_arg(take_arg(&mut args, 9)) {
            Ok(value) => value,
            Err(_) => {
                return Err(InvokeArgSetError::TypeMismatch { arg_idx: 9 });
            },
        };
        Ok((v0, v1, v2, v3, v4, v5, v6, v7, v8, v9))
    }
}

impl<A, B, C, D, E, F, G, H, I, J, K> FromInvokeArgSet for (A, B, C, D, E, F, G, H, I, J, K) where A: FromInvokeArg, B: FromInvokeArg, C: FromInvokeArg, D: FromInvokeArg, E: FromInvokeArg, F: FromInvokeArg, G: FromInvokeArg, H: FromInvokeArg, I: FromInvokeArg, J: FromInvokeArg, K: FromInvokeArg {
    open spec fn arity() -> nat {
        11
    }

    open spec fn first_mismatch(args: Seq<InvokeArgumentView>) -> Option<nat> {
        if !A::convertible(args[0]) {
            Some(0nat)
        } else if !B::convertible(args[1]) {
            Some(1nat)
        } else if !C::convertible(args[2]) {
            Some(2nat)
        } else if !D::convertible(args[3]) {
            Some(3nat)
        } else if !E::convertible(args[4]) {
            Some(4nat)
        } else if !F::convertible(args[5]) {
            Some(5nat)
        } else if !G::convertible(args[6]) {
            Some(6nat)
        } else if !H::convertible(args[7]) {
            Some(7nat)
        } else if !I::convertible(args[8]) {
            Some(8nat)
        } else if !J::convertible(args[9]) {
            Some(9nat)
        } else if !K::convertible(args[10]) {
            Some(10nat)
        } else {
            None
        }
    }

    open spec fn converts_all(args: Seq<InvokeArgumentView>, value: (A, B, C, D, E, F, G, H, I, J, K)) -> bool {
        &&& A::converts(args[0], value.0)
        &&& B::converts(args[1], value.1)
        &&& C::converts(args[2], value.2)
        &&& D::converts(args[3], value.3)
        &&& E::converts(args[4], value.4)
        &&& F::converts(args[5], value.5)
        &&& G::converts(args[6], value.6)
        &&& H::converts(args[7], value.7)
        &&& I::converts(args[8], value.8)
        &&& J::converts(args[9], value.9)
        &&& K::converts(args[10], value.10)
    }

    fn from_invoke_arg_set(args: Vec<InvokeArgument>) -> (r: Result<(A, B, C, D, E, F, G, H, I, J, K), InvokeArgSetError>) {
        let mut args = args;
        if args.len() != 11 {
            return Err(InvokeArgSetError::ArgCountMismatch { expected: 11, actual: args.len() });
        }
        let ghost given = args@;
        let v0 = match A::from_invoke_arg(take_arg(&mut args, 0)) {
            Ok(value) => value,
            Err(_) => {
                return Err(InvokeArgSetError::TypeMismatch { arg_idx: 0 });
            },
        };
        let v1 = match B::from_invoke_arg(take_arg(&mut args, 1)) {
            Ok(value) => value,
            Err(_) => {
                return Err(InvokeArgSetError::TypeMismatch { arg_idx: 1 });
            },
        };
        let v2 = match C::from_invoke_arg(take_arg(&mut args, 2)) {
            Ok(value) => value,
            Err(_) => {
                return Err(InvokeArgSetError::TypeMismatch { arg_idx: 2 });
            },
        };
        let v3 = match D::from_invoke_arg(take_arg(&mut args, 3)) {
            Ok(value) => value,
            Err(_) => {
                return Err(InvokeArgSetError::TypeMismatch { arg_idx: 3 });
            },
        };
        let v4 = match E::from_invoke_arg(take_arg(&mut args, 4)) {
            Ok(value) => value,
            Err(_) => {
                return Err(InvokeArgSetError::TypeMismatch { arg_idx: 4 });
            },
        };
        let v5 = match F::from_invoke_arg(take_arg(&mut args, 5)) {
            Ok(value) => value,
            Err(_) => {
                return Err(InvokeArgSetError::TypeMismatch { arg_idx: 5 });
            },
        };
        let v6 = match G::from_invoke_arg(take_arg(&mut args, 6)) {
            Ok(value) => value,
            Err(_) => {
                return Err(InvokeArgSetError::TypeMismatch { arg_idx: 6 });
            },
        };
        let v7 = match H::from_invoke_arg(take_arg(&mut args, 7)) {
            Ok(value) => value,
            Err(_) => {
                return Err(InvokeArgSetError::TypeMismatch { arg_idx: 7 });
            },
        };
        let v8 = match I::from_invoke_arg(take_arg(&mut args, 8)) {
            Ok(value) => value,
            Err(_) => {
                return Err(InvokeArgSetError::TypeMismatch { arg_idx: 8 });
            },
        };
        let v9 = match J::from_invoke_arg(take_arg(&mut args, 9)) {
            Ok(value) => value,
            Err(_) => {
                return Err(InvokeArgSetError::TypeMismatch { arg_idx: 9 });
            },
        };
        let v10 = match K::from_invoke_arg(take_arg(&mut args, 10)) {
            Ok(value) => value,
            Err(_) => {
                return Err(InvokeArgSetError::TypeMismatch { arg_idx: 10 });
            },
        };
        Ok((v0, v1, v2, v3, v4, v5, v6, v7, v8, v9, v10))
    }
}

impl<A, B, C, D, E, F, G, H, I, J, K, L> FromInvokeArgSet for (A, B, C, D, E, F, G, H, I, J, K, L) where A: FromInvokeArg, B: FromInvokeArg, C: FromInvokeArg, D: FromInvokeArg, E: FromInvokeArg, F: FromInvokeArg, G: FromInvokeArg, H: FromInvokeArg, I: FromInvokeArg, J: FromInvokeArg, K: FromInvokeArg, L: FromInvokeArg {
    open spec fn arity() -> nat {
        12
    }

    open spec fn first_mismatch(args: Seq<InvokeArgumentView>) -> Option<nat> {
        if !A::convertible(args[0]) {
            Some(0nat)
        } else if !B::convertible(args[1]) {
            Some(1nat)
        } else if !C::convertible(args[2]) {
            Some(2nat)
        } else if !D::convertible(args[3]) {
            Some(3nat)
        } else if !E::convertible(args[4]) {
            Some(4nat)
        } else if !F::convertible(args[5]) {
            Some(5nat)
        } else if !G::convertible(args[6]) {
            Some(6nat)
        } else if !H::convertible(args[7]) {
            Some(7nat)
        } else if !I::convertible(args[8]) {
            Some(8nat)
        } else if !J::convertible(args[9]) {
            Some(9nat)
        } else if !K::convertible(args[10]) {
            Some(10nat)
        } else if !L::convertible(args[11]) {
            Some(11nat)
        } else {
            None
        }
    }

    open spec fn converts_all(args: Seq<InvokeArgumentView>, value: (A, B, C, D, E, F, G, H, I, J, K, L)) -> bool {
        &&& A::converts(args[0], value.0)
        &&& B::converts(args[1], value.1)
        &&& C::converts(args[2], value.2)
        &&& D::converts(args[3], value.3)
        &&& E::converts(args[4], value.4)
        &&& F::converts(args[5], value.5)
        &&& G::converts(args[6], value.6)
        &&& H::converts(args[7], value.7)
        &&& I::converts(args[8], value.8)
        &&& J::converts(args[9], value.9)
        &&& K::converts(args[10], value.10)
        &&& L::converts(args[11], value.11)
    }

    fn from_invoke_arg_set(args: Vec<InvokeArgument>) -> (r: Result<(A, B, C, D, E, F, G, H, I, J, K, L), InvokeArgSetError>) {
        let mut args = args;
        if args.len() != 12 {
            return Err(InvokeArgSetError::ArgCountMismatch { expected: 12, actual: args.len() });
        }
        let ghost given = args@;
        let v0 = match A::from_invoke_arg(take_arg(&mut args, 0)) {
            Ok(value) => value,
            Err(_) => {
                return Err(InvokeArgSetError::TypeMismatch { arg_idx: 0 });
            },
        };
        let v1 = match B::from_invoke_arg(take_arg(&mut args, 1)) {
            Ok(value) => value,
            Err(_) => {
                return Err(InvokeArgSetError::TypeMismatch { arg_idx: 1 });
            },
        };
        let v2 = match C::from_invoke_arg(take_arg(&mut args, 2)) {
            Ok(value) => value,
            Err(_) => {
                return Err(InvokeArgSetError::TypeMismatch { arg_idx: 2 });
            },
        };
        let v3 = match D::from_invoke_arg(take_arg(&mut args, 3)) {
            Ok(value) => value,
            Err(_) => {
                return Err(InvokeArgSetError::TypeMismatch { arg_idx: 3 });
            },
        };
        let v4 = match E::from_invoke_arg(take_arg(&mut args, 4)) {
            Ok(value) => value,
            Err(_) => {
                return Err(InvokeArgSetError::TypeMismatch { arg_idx: 4 });
            },
        };
        let v5 = match F::from_invoke_arg(take_arg(&mut args, 5)) {
            Ok(value) => value,
            Err(_) => {
                return Err(InvokeArgSetError::TypeMismatch { arg_idx: 5 });
            },
        };
        let v6 = match G::from_invoke_arg(take_arg(&mut args, 6)) {
            Ok(value) => value,
            Err(_) => {
                return Err(InvokeArgSetError::TypeMismatch { arg_idx: 6 });
            },
        };
        let v7 = match H::from_invoke_arg(take_arg(&mut args, 7)) {
            Ok(value) => value,
            Err(_) => {
                return Err(InvokeArgSetError::TypeMismatch { arg_idx: 7 });
            },
        };
        let v8 = match I::from_invoke_arg(take_arg(&mut args, 8)) {
            Ok(value) => value,
            Err(_) => {
                return Err(InvokeArgSetError::TypeMismatch { arg_idx: 8 });
            },
        };
        let v9 = match J::from_invoke_arg(take_arg(&mut args, 9)) {
            Ok(value) => value,
            Err(_) => {
                return Err(InvokeArgSetError::TypeMismatch { arg_idx: 9 });
            },
        };
        let v10 = match K::from_invoke_arg(take_arg(&mut args, 10)) {
            Ok(value) => value,
            Err(_) => {
                return Err(InvokeArgSetError::TypeMismatch { arg_idx: 10 });
            },
        };
        let v11 = match L::from_invoke_arg(take_arg(&mut args, 11)) {
            Ok(value) => value,
            Err(_) => {
                return Err(InvokeArgSetError::TypeMismatch { arg_idx: 11 });
            },
        };
        Ok((v0, v1, v2, v3, v4, v5, v6, v7, v8, v9, v10, v11))
    }
}

} // verus!
