use cucumber::definitions::destructuring::invoke_arg::{
    integer_from, Destructurable, FromInvokeArg, ImproperInvokeArgError,
};
use cucumber::definitions::destructuring::invoke_arg_set::{
    mismatch_failure, try_destructure, DestructurableSet, FromInvokeArgSet, InvokeArgSetError,
};
use cucumber::cucumber_regex::build;
use cucumber::event::request::InvokeArgument;
use cucumber::event::response::InvokeResponse;
use cucumber::state::{Cucumber, SendableStep};

struct NoStep;

impl SendableStep<u32> for NoStep {
    fn run(&self, _: &Cucumber<u32, NoStep>, _: &mut u32, _: Vec<InvokeArgument>) -> InvokeResponse {
        InvokeResponse::Success
    }
}

#[test]
fn wrong_type_destructure_fails_correctly() {
    let res: Result<u32, ImproperInvokeArgError> =
        InvokeArgument::String("hello".to_owned()).destructure();

    assert_eq!(res, Err(ImproperInvokeArgError { _priv: () }));
}

#[test]
fn string_can_be_destructured() {
    let res: String = InvokeArgument::String("hello".to_owned()).destructure().unwrap();

    assert_eq!(&res, "hello");
}

#[test]
fn table_can_be_destructured() {
    let res: Vec<Vec<String>> =
        InvokeArgument::Table(vec![vec!["hello".to_owned()]]).destructure().unwrap();

    assert_eq!(res, vec![vec!["hello".to_owned()]]);
}

#[test]
fn bool_doesnt_parse_from_table() {
    let res: Result<bool, ImproperInvokeArgError> =
        InvokeArgument::Table(vec![vec!["hello".to_owned()]]).destructure();

    assert_eq!(res, Err(ImproperInvokeArgError { _priv: () }));
}

#[test]
fn bool_is_false_from_none() {
    let res: bool = InvokeArgument::Absent.destructure().unwrap();

    assert_eq!(res, false);
}

#[test]
fn bool_is_false_string_false() {
    let res: bool = InvokeArgument::String("false".to_owned()).destructure().unwrap();

    assert_eq!(res, false);
}

#[test]
fn bool_is_true_from_other_strings() {
    let res: bool = InvokeArgument::String("true".to_owned()).destructure().unwrap();
    assert_eq!(res, true);

    let res: bool = InvokeArgument::String("hello".to_owned()).destructure().unwrap();
    assert_eq!(res, true);
}

#[test]
fn tuple_1_string_can_be_destructured() {
    let res = vec![InvokeArgument::String("hello".to_owned())].destructure_set();

    let (x,): (String,) = res.unwrap();

    assert_eq!(&x, "hello");
}

#[test]
fn tuple_1_bool_can_be_destructured() {
    let res = vec![InvokeArgument::String("false".to_owned())].destructure_set();

    let (x,): (bool,) = res.unwrap();

    assert_eq!(x, false);
}

#[test]
fn tuple_3_can_be_destructured() {
    let res = vec![
        InvokeArgument::String("hello".to_owned()),
        InvokeArgument::String("world".to_owned()),
        InvokeArgument::String("hello".to_owned()),
    ]
    .destructure_set();

    let (x, y, z): (String, String, String) = res.unwrap();

    assert_eq!(&x, "hello");
    assert_eq!(&y, "world");
    assert_eq!(&z, "hello");
}

#[test]
fn destructure_for_element_count_fails_correctly() {
    let res: Result<(String, String, String), InvokeArgSetError> =
        vec![InvokeArgument::String("hello".to_owned())].destructure_set();

    assert_eq!(res, Err(InvokeArgSetError::ArgCountMismatch { expected: 3, actual: 1 }));
}

#[test]
fn destructure_for_type_mismatch_fails_correctly() {
    let res: Result<(bool, u32), InvokeArgSetError> = vec![
        InvokeArgument::String("true".to_owned()),
        InvokeArgument::String("not a u32".to_owned()),
    ]
    .destructure_set();

    assert_eq!(res, Err(InvokeArgSetError::TypeMismatch { arg_idx: 1 }));
}

#[test]
fn destructure_two_numbers_and_an_absent_flag() {
    let args =
        vec![InvokeArgument::from_str("1"), InvokeArgument::from_str("2"), InvokeArgument::Absent];
    let res: Result<(u32, u32, bool), InvokeArgSetError> = args.destructure_set();
    assert_eq!(res, Ok((1, 2, false)));
}

#[test]
fn destructure_optional_alternation() {
    let present = vec![InvokeArgument::from_str(" don't"), InvokeArgument::from_str("2")];
    let res: Result<(Option<String>, u32), InvokeArgSetError> = present.destructure_set();
    assert_eq!(res, Ok((Some(" don't".to_owned()), 2)));

    let absent = vec![InvokeArgument::Absent, InvokeArgument::from_str("2")];
    let res: Result<(Option<String>, u32), InvokeArgSetError> = absent.destructure_set();
    assert_eq!(res, Ok((None, 2)));
}

#[test]
fn optional_alternation_from_a_matched_text() {
    let mut cucumber: Cucumber<u32, NoStep> = Cucumber::new();
    cucumber.insert_step("f:1".to_owned(), build("^I( don't)? do (\\d+) things$"), NoStep);

    let (_, args) = cucumber.resolve("I don't do 2 things", None).unwrap();
    let res: Result<(Option<String>, u32), InvokeArgSetError> = args.destructure_set();
    assert_eq!(res, Ok((Some(" don't".to_owned()), 2)));

    let (_, args) = cucumber.resolve("I do 2 things", None).unwrap();
    let res: Result<(Option<String>, u32), InvokeArgSetError> = args.destructure_set();
    assert_eq!(res, Ok((None, 2)));

    let (_, args) = cucumber.resolve("I don't do 2 things", None).unwrap();
    let res: Result<(bool, u32), InvokeArgSetError> = args.destructure_set();
    assert_eq!(res, Ok((true, 2)));
}

#[test]
fn option_rejects_a_table_and_an_unparseable_text() {
    let res: Result<Option<u32>, ImproperInvokeArgError> =
        InvokeArgument::Table(vec![]).destructure();
    assert_eq!(res, Err(ImproperInvokeArgError { _priv: () }));
    let res: Result<Option<u32>, ImproperInvokeArgError> =
        InvokeArgument::from_str("x").destructure();
    assert_eq!(res, Err(ImproperInvokeArgError { _priv: () }));
    let res: Result<Option<u32>, ImproperInvokeArgError> =
        InvokeArgument::from_str("12").destructure();
    assert_eq!(res, Ok(Some(12)));
}

#[test]
fn string_and_table_reject_other_shapes() {
    let res: Result<String, ImproperInvokeArgError> = InvokeArgument::Absent.destructure();
    assert!(res.is_err());
    let res: Result<String, ImproperInvokeArgError> = InvokeArgument::Table(vec![]).destructure();
    assert!(res.is_err());
    let res: Result<Vec<Vec<String>>, ImproperInvokeArgError> =
        InvokeArgument::from_str("a").destructure();
    assert!(res.is_err());
    let res: Result<Vec<Vec<String>>, ImproperInvokeArgError> = InvokeArgument::Absent.destructure();
    assert!(res.is_err());
}

#[test]
fn integers_follow_the_range_of_their_type() {
    assert_eq!(u8::from_invoke_arg(InvokeArgument::from_str("255")).ok(), Some(255));
    assert!(u8::from_invoke_arg(InvokeArgument::from_str("256")).is_err());
    assert!(u8::from_invoke_arg(InvokeArgument::from_str("-0")).is_err());
    assert_eq!(u16::from_invoke_arg(InvokeArgument::from_str("+65535")).ok(), Some(65535));
    assert_eq!(u32::from_invoke_arg(InvokeArgument::from_str("007")).ok(), Some(7));
    assert!(u32::from_invoke_arg(InvokeArgument::from_str("4294967296")).is_err());
    assert!(u32::from_invoke_arg(InvokeArgument::from_str("")).is_err());
    assert!(u32::from_invoke_arg(InvokeArgument::from_str("+")).is_err());
    assert!(u32::from_invoke_arg(InvokeArgument::from_str(" 1")).is_err());
    assert!(u32::from_invoke_arg(InvokeArgument::Absent).is_err());
    assert_eq!(
        usize::from_invoke_arg(InvokeArgument::from_str("18446744073709551615")).ok(),
        "18446744073709551615".parse::<usize>().ok()
    );
    assert!(usize::from_invoke_arg(InvokeArgument::from_str("18446744073709551616")).is_err());
    assert_eq!(i16::from_invoke_arg(InvokeArgument::from_str("-32768")).ok(), Some(-32768));
    assert!(i16::from_invoke_arg(InvokeArgument::from_str("32768")).is_err());
    assert_eq!(i32::from_invoke_arg(InvokeArgument::from_str("-0")).ok(), Some(0));
    assert_eq!(
        i64::from_invoke_arg(InvokeArgument::from_str("-9223372036854775808")).ok(),
        Some(i64::MIN)
    );
    assert!(i64::from_invoke_arg(InvokeArgument::from_str("9223372036854775808")).is_err());
    assert!(i64::from_invoke_arg(InvokeArgument::from_str("--1")).is_err());
    assert_eq!(isize::from_invoke_arg(InvokeArgument::from_str("+12")).ok(), Some(12));
    assert!(i32::from_invoke_arg(InvokeArgument::from_str("1e3")).is_err());
    assert!(i32::from_invoke_arg(InvokeArgument::Table(vec![])).is_err());
}

#[test]
fn integer_from_reads_within_bounds() {
    assert_eq!(integer_from(&InvokeArgument::from_str("-5"), true, -10, 10), Some(-5));
    assert_eq!(integer_from(&InvokeArgument::from_str("-5"), false, -10, 10), None);
    assert_eq!(integer_from(&InvokeArgument::from_str("11"), true, -10, 10), None);
}

#[test]
fn empty_tuple_takes_no_arguments() {
    let res: Result<(), InvokeArgSetError> = Vec::<InvokeArgument>::new().destructure_set();
    assert_eq!(res, Ok(()));
    let res: Result<(), InvokeArgSetError> = vec![InvokeArgument::Absent].destructure_set();
    assert_eq!(res, Err(InvokeArgSetError::ArgCountMismatch { expected: 0, actual: 1 }));
}

#[test]
fn first_mismatch_is_reported() {
    let res: Result<(u32, u32, u32), InvokeArgSetError> = vec![
        InvokeArgument::from_str("1"),
        InvokeArgument::from_str("x"),
        InvokeArgument::from_str("y"),
    ]
    .destructure_set();
    assert_eq!(res, Err(InvokeArgSetError::TypeMismatch { arg_idx: 1 }));
}

#[test]
fn tuple_of_twelve_can_be_destructured() {
    let args: Vec<InvokeArgument> =
        (0..12).map(|i| InvokeArgument::String(i.to_string())).collect();
    let res: (u8, u16, u32, usize, i16, i32, i64, isize, String, bool, Option<u32>, u32) =
        FromInvokeArgSet::from_invoke_arg_set(args).unwrap();
    assert_eq!(res, (0, 1, 2, 3, 4, 5, 6, 7, "8".to_owned(), true, Some(10), 11));
}

#[test]
fn mismatch_messages() {
    assert_eq!(
        mismatch_failure(&InvokeArgSetError::ArgCountMismatch { expected: 1, actual: 0 }),
        InvokeResponse::fail_from_str("Expected [1] arguments, but found [0] in step definition")
    );
    assert_eq!(
        mismatch_failure(&InvokeArgSetError::TypeMismatch { arg_idx: 12 }),
        InvokeResponse::fail_from_str(
            "Argument in position [12] did not have the correct type or was unparseable"
        )
    );
}

#[test]
fn try_destructure_gives_the_tuple_or_the_failure() {
    let ok: Result<(u32,), InvokeResponse> = try_destructure(vec![InvokeArgument::from_str("7")]);
    assert_eq!(ok, Ok((7,)));
    let bad: Result<(u32,), InvokeResponse> = try_destructure(vec![]);
    assert_eq!(
        bad,
        Err(InvokeResponse::fail_from_str(
            "Expected [1] arguments, but found [0] in step definition"
        ))
    );
    let bad: Result<(u32,), InvokeResponse> = try_destructure(vec![InvokeArgument::Absent]);
    assert_eq!(
        bad,
        Err(InvokeResponse::fail_from_str(
            "Argument in position [0] did not have the correct type or was unparseable"
        ))
    );
}
