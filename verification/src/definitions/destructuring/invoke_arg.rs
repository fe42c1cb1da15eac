//! Conversion of one wire argument into a typed value.

use crate::decimal::{integer_value, read_integer};
use crate::event::json::{str_equal, table_view};
use crate::event::request::{InvokeArgument, InvokeArgumentView};
use vstd::prelude::*;

verus! {

/// The error of a conversion: the argument has the wrong shape for the type,
/// or its text does not parse.
#[derive(Debug, PartialEq)]
pub struct ImproperInvokeArgError {
    pub _priv: (),
}

impl Clone for ImproperInvokeArgError {
    fn clone(&self) -> (r: ImproperInvokeArgError)
        ensures
            r == *self,
    {
        ImproperInvokeArgError { _priv: () }
    }
}

/// A type that a wire argument converts to.
pub trait FromInvokeArg: Sized {
    type Err;

    /// True when the argument converts to a value of the type.
    spec fn convertible(arg: InvokeArgumentView) -> bool;

    /// True when `value` is what the argument converts to.
    spec fn converts(arg: InvokeArgumentView, value: Self) -> bool;

    /// Converts the argument, or says that it does not convert.
    fn from_invoke_arg(arg: InvokeArgument) -> (r: Result<Self, Self::Err>)
        ensures
            r is Ok <==> Self::convertible(arg@),
            r matches Ok(value) ==> Self::converts(arg@, value),
    ;
}

/// A value that converts into typed values.
pub trait Destructurable: Sized {
    /// The argument this value stands for.
    spec fn argument(&self) -> InvokeArgumentView;

    /// Converts the value into the type asked for.
    fn destructure<T: FromInvokeArg>(self) -> (r: Result<T, T::Err>)
        ensures
            r is Ok <==> T::convertible(self.argument()),
            r matches Ok(value) ==> T::converts(self.argument(), value),
    ;
}

impl Destructurable for InvokeArgument {
    open spec fn argument(&self) -> InvokeArgumentView {
        self@
    }

    fn destructure<T: FromInvokeArg>(self) -> (r: Result<T, T::Err>) {
        T::from_invoke_arg(self)
    }
}

/// The integer that an argument stands for in a type with the range
/// `min ..= max`: the value of its text. Only a text converts.
pub open spec fn integer_of(arg: InvokeArgumentView, signed: bool, min: int, max: int) -> Option<int> {
    match arg {
        InvokeArgumentView::Text(text) => integer_value(text, signed, min, max),
        _ => None,
    }
}

/// Reads the integer that an argument stands for.
pub fn integer_from(arg: &InvokeArgument, signed: bool, min: i128, max: i128) -> (r: Option<i128>)
    requires
        -crate::decimal::magnitude_limit() <= min <= max <= crate::decimal::magnitude_limit(),
    ensures
        match r {
            Some(v) => integer_of(arg@, signed, min as int, max as int) == Some(v as int),
            None => integer_of(arg@, signed, min as int, max as int) is None,
        },
{
    match arg {
        InvokeArgument::String(val) => read_integer(val.as_str(), signed, min, max),
        _ => None,
    }
}

impl FromInvokeArg for u8 {
    type Err = ImproperInvokeArgError;

    open spec fn convertible(arg: InvokeArgumentView) -> bool {
        integer_of(arg, false, u8::MIN as int, u8::MAX as int) is Some
    }

    open spec fn converts(arg: InvokeArgumentView, value: u8) -> bool {
        integer_of(arg, false, u8::MIN as int, u8::MAX as int) == Some(value as int)
    }

    fn from_invoke_arg(arg: InvokeArgument) -> (r: Result<u8, ImproperInvokeArgError>) {
        match integer_from(&arg, false, u8::MIN as i128, u8::MAX as i128) {
            Some(v) => Ok(v as u8),
            None => Err(ImproperInvokeArgError { _priv: () }),
        }
    }
}

impl FromInvokeArg for u16 {
    type Err = ImproperInvokeArgError;

    open spec fn convertible(arg: InvokeArgumentView) -> bool {
        integer_of(arg, false, u16::MIN as int, u16::MAX as int) is Some
    }

    open spec fn converts(arg: InvokeArgumentView, value: u16) -> bool {
        integer_of(arg, false, u16::MIN as int, u16::MAX as int) == Some(value as int)
    }

    fn from_invoke_arg(arg: InvokeArgument) -> (r: Result<u16, ImproperInvokeArgError>) {
        match integer_from(&arg, false, u16::MIN as i128, u16::MAX as i128) {
            Some(v) => Ok(v as u16),
            None => Err(ImproperInvokeArgError { _priv: () }),
        }
    }
}

impl FromInvokeArg for u32 {
    type Err = ImproperInvokeArgError;

    open spec fn convertible(arg: InvokeArgumentView) -> bool {
        integer_of(arg, false, u32::MIN as int, u32::MAX as int) is Some
    }

    open spec fn converts(arg: InvokeArgumentView, value: u32) -> bool {
        integer_of(arg, false, u32::MIN as int, u32::MAX as int) == Some(value as int)
    }

    fn from_invoke_arg(arg: InvokeArgument) -> (r: Result<u32, ImproperInvokeArgError>) {
        match integer_from(&arg, false, u32::MIN as i128, u32::MAX as i128) {
            Some(v) => Ok(v as u32),
            None => Err(ImproperInvokeArgError { _priv: () }),
        }
    }
}

impl FromInvokeArg for usize {
    type Err = ImproperInvokeArgError;

    open spec fn convertible(arg: InvokeArgumentView) -> bool {
        integer_of(arg, false, usize::MIN as int, usize::MAX as int) is Some
    }

    open spec fn converts(arg: InvokeArgumentView, value: usize) -> bool {
        integer_of(arg, false, usize::MIN as int, usize::MAX as int) == Some(value as int)
    }

    fn from_invoke_arg(arg: InvokeArgument) -> (r: Result<usize, ImproperInvokeArgError>) {
        match integer_from(&arg, false, usize::MIN as i128, usize::MAX as i128) {
            Some(v) => Ok(v as usize),
            None => Err(ImproperInvokeArgError { _priv: () }),
        }
    }
}

impl FromInvokeArg for i16 {
    type Err = ImproperInvokeArgError;

    open spec fn convertible(arg: InvokeArgumentView) -> bool {
        integer_of(arg, true, i16::MIN as int, i16::MAX as int) is Some
    }

    open spec fn converts(arg: InvokeArgumentView, value: i16) -> bool {
        integer_of(arg, true, i16::MIN as int, i16::MAX as int) == Some(value as int)
    }

    fn from_invoke_arg(arg: InvokeArgument) -> (r: Result<i16, ImproperInvokeArgError>) {
        match integer_from(&arg, true, i16::MIN as i128, i16::MAX as i128) {
            Some(v) => Ok(v as i16),
            None => Err(ImproperInvokeArgError { _priv: () }),
        }
    }
}

impl FromInvokeArg for i32 {
    type Err = ImproperInvokeArgError;

    open spec fn convertible(arg: InvokeArgumentView) -> bool {
        integer_of(arg, true, i32::MIN as int, i32::MAX as int) is Some
    }

    open spec fn converts(arg: InvokeArgumentView, value: i32) -> bool {
        integer_of(arg, true, i32::MIN as int, i32::MAX as int) == Some(value as int)
    }

    fn from_invoke_arg(arg: InvokeArgument) -> (r: Result<i32, ImproperInvokeArgError>) {
        match integer_from(&arg, true, i32::MIN as i128, i32::MAX as i128) {
            Some(v) => Ok(v as i32),
            None => Err(ImproperInvokeArgError { _priv: () }),
        }
    }
}

impl FromInvokeArg for i64 {
    type Err = ImproperInvokeArgError;

    open spec fn convertible(arg: InvokeArgumentView) -> bool {
        integer_of(arg, true, i64::MIN as int, i64::MAX as int) is Some
    }

    open spec fn converts(arg: InvokeArgumentView, value: i64) -> bool {
        integer_of(arg, true, i64::MIN as int, i64::MAX as int) == Some(value as int)
    }

    fn from_invoke_arg(arg: InvokeArgument) -> (r: Result<i64, ImproperInvokeArgError>) {
        match integer_from(&arg, true, i64::MIN as i128, i64::MAX as i128) {
            Some(v) => Ok(v as i64),
            None => Err(ImproperInvokeArgError { _priv: () }),
        }
    }
}

impl FromInvokeArg for isize {
    type Err = ImproperInvokeArgError;

    open spec fn convertible(arg: InvokeArgumentView) -> bool {
        integer_of(arg, true, isize::MIN as int, isize::MAX as int) is Some
    }

    open spec fn converts(arg: InvokeArgumentView, value: isize) -> bool {
        integer_of(arg, true, isize::MIN as int, isize::MAX as int) == Some(value as int)
    }

    fn from_invoke_arg(arg: InvokeArgument) -> (r: Result<isize, ImproperInvokeArgError>) {
        match integer_from(&arg, true, isize::MIN as i128, isize::MAX as i128) {
            Some(v) => Ok(v as isize),
            None => Err(ImproperInvokeArgError { _priv: () }),
        }
    }
}

impl<T> FromInvokeArg for Option<T> where T: FromInvokeArg {
    type Err = ImproperInvokeArgError;

    open spec fn convertible(arg: InvokeArgumentView) -> bool {
        match arg {
            InvokeArgumentView::Absent => true,
            InvokeArgumentView::Text(_) => T::convertible(arg),
            InvokeArgumentView::Table(_) => false,
        }
    }

    open spec fn converts(arg: InvokeArgumentView, value: Option<T>) -> bool {
        match arg {
            InvokeArgumentView::Absent => value is None,
            InvokeArgumentView::Text(_) => value matches Some(inner) && T::converts(arg, inner),
            InvokeArgumentView::Table(_) => false,
        }
    }

    fn from_invoke_arg(arg: InvokeArgument) -> (r: Result<Option<T>, ImproperInvokeArgError>) {
        match arg {
            InvokeArgument::Absent => Ok(None),
            InvokeArgument::String(_) => match T::from_invoke_arg(arg) {
                Ok(value) => Ok(Some(value)),
                Err(_) => Err(ImproperInvokeArgError { _priv: () }),
            },
            _ => Err(ImproperInvokeArgError { _priv: () }),
        }
    }
}

impl FromInvokeArg for String {
    type Err = ImproperInvokeArgError;

    open spec fn convertible(arg: InvokeArgumentView) -> bool {
        arg is Text
    }

    open spec fn converts(arg: InvokeArgumentView, value: String) -> bool {
        arg == InvokeArgumentView::Text(value@)
    }

    fn from_invoke_arg(arg: InvokeArgument) -> (r: Result<String, ImproperInvokeArgError>) {
        match arg {
            InvokeArgument::String(val) => Ok(val),
            _ => Err(ImproperInvokeArgError { _priv: () }),
        }
    }
}

/// The text that stands for `false`.
pub open spec fn false_text() -> Seq<char> {
    "false"@
}

impl FromInvokeArg for bool {
    type Err = ImproperInvokeArgError;

    open spec fn convertible(arg: InvokeArgumentView) -> bool {
        arg is Absent || arg is Text
    }

    open spec fn converts(arg: InvokeArgumentView, value: bool) -> bool {
        match arg {
            InvokeArgumentView::Absent => !value,
            InvokeArgumentView::Text(text) => value == (text != false_text()),
            InvokeArgumentView::Table(_) => false,
        }
    }

    fn from_invoke_arg(arg: InvokeArgument) -> (r: Result<bool, ImproperInvokeArgError>) {
        match arg {
            InvokeArgument::Absent => Ok(false),
            InvokeArgument::String(val) => {
                if str_equal(val.as_str(), "false") {
                    Ok(false)
                } else {
                    Ok(true)
                }
            },
            _ => Err(ImproperInvokeArgError { _priv: () }),
        }
    }
}

impl FromInvokeArg for Vec<Vec<String>> {
    type Err = ImproperInvokeArgError;

    open spec fn convertible(arg: InvokeArgumentView) -> bool {
        arg is Table
    }

    open spec fn converts(arg: InvokeArgumentView, value: Vec<Vec<String>>) -> bool {
        arg == InvokeArgumentView::Table(table_view(value@))
    }

    fn from_invoke_arg(arg: InvokeArgument) -> (r: Result<Vec<Vec<String>>, ImproperInvokeArgError>) {
        match arg {
            InvokeArgument::Table(val) => Ok(val),
            _ => Err(ImproperInvokeArgError { _priv: () }),
        }
    }
}

} // verus!
