use reachable::{CheckTargetError, ParseTargetError, ResolveTargetError};
use reachable::{GenericCause, IoCause, ParseIntCause};
use std::io;

fn io_cause(kind: io::ErrorKind) -> IoCause {
    IoCause::new(io::Error::from(kind).to_string())
}

fn returns_io_error() -> Result<u32, IoCause> {
    Err(io_cause(io::ErrorKind::TimedOut))
}

fn returns_resolve_target_error() -> Result<u32, ResolveTargetError> {
    Ok(returns_io_error()?)
}

fn returns_check_target_error() -> Result<u32, CheckTargetError> {
    Ok(returns_resolve_target_error()?)
}

// ParseTargetError

#[test]
fn parse_target_error_from_str() {
    // A ParseTargetError is shown as its message.
    assert_eq!(ParseTargetError::from("Error Message!").to_string(), "Error Message!");
}

#[test]
fn parse_target_error_from_parse_int_error() {
    // A ParseTargetError is shown as its message and the description of the
    // integer error inside it.
    let error = i32::from_str_radix("invalid", 10).unwrap_err();
    let cause = ParseIntCause::new(error.to_string());
    assert_eq!(
        ParseTargetError::from(("ParseIntError!", cause)).to_string(),
        "ParseIntError! caused by: invalid digit found in string"
    );
}

#[test]
fn parse_target_error_from_boxed_error_trait_object() {
    // A ParseTargetError is shown as its message and the description of the
    // error inside it, whatever that error is.
    let boxed_error = GenericCause::new(io::Error::from(io::ErrorKind::AddrNotAvailable).to_string());
    assert_eq!(
        ParseTargetError::from(boxed_error).to_string(),
        "GenericError caused by: address not available"
    );
}

#[test]
fn parse_target_error_chain_multiple_errors() {
    // The errors inside an error are shown one after the other.
    let error1 = GenericCause::new(ParseTargetError::from("Layer1!").to_string());
    let error2 = GenericCause::new(ParseTargetError::from(("Layer2!", error1)).to_string());
    assert_eq!(
        ParseTargetError::from(("Layer3!", error2)).to_string(),
        "Layer3! caused by: Layer2! caused by: Layer1!"
    );
}

// ResolveTargetError

#[test]
fn resolve_target_error_from_str() {
    assert_eq!(ResolveTargetError::from("Error Message!").to_string(), "Error Message!");
}

#[test]
fn resolve_target_error_from_parse_int_error() {
    // A ResolveTargetError is shown as its message and the description of the
    // input or output error inside it.
    assert_eq!(
        ResolveTargetError::from(io_cause(io::ErrorKind::Other)).to_string(),
        "IoError caused by: other error"
    );
}

#[test]
fn resolve_target_error_from_boxed_error_trait_object() {
    let boxed_error = GenericCause::new(ParseTargetError::from("ParseTargetError").to_string());
    assert_eq!(
        ResolveTargetError::from(boxed_error).to_string(),
        "GenericError caused by: ParseTargetError"
    );
}

// CheckTargetError

#[test]
fn check_target_error_from_str() {
    assert_eq!(CheckTargetError::from("Error Message!").to_string(), "Error Message!");
}

#[test]
fn check_target_error_from_resolve_target_error() {
    // A CheckTargetError is shown as its message and the ResolveTargetError
    // inside it.
    let resolve_target_error = ResolveTargetError::from(io_cause(io::ErrorKind::AddrNotAvailable));
    assert_eq!(
        CheckTargetError::from(resolve_target_error).to_string(),
        "ResolveTargetError caused by: IoError caused by: address not available"
    );
}

#[test]
fn check_target_error_from_boxed_error_trait_object() {
    let boxed_error = GenericCause::new(io::Error::from(io::ErrorKind::AddrNotAvailable).to_string());
    assert_eq!(
        CheckTargetError::from(boxed_error).to_string(),
        "GenericError caused by: address not available"
    );
}

#[test]
fn check_target_error_via_questionmark_operator() {
    // The question mark turns an input or output error into a
    // ResolveTargetError, and that into a CheckTargetError.
    assert_eq!(
        returns_check_target_error().unwrap_err().to_string(),
        "ResolveTargetError caused by: IoError caused by: timed out"
    );
}

// The cause of an error

#[test]
fn error_source_is_the_description_of_the_cause() {
    assert_eq!(ParseTargetError::from("plain").source(), None);
    assert_eq!(
        ParseTargetError::from(("outer", ParseIntCause::new(String::from("inner")))).source(),
        Some(String::from("inner"))
    );
    assert_eq!(
        ResolveTargetError::from(("outer", IoCause::new(String::from("broken pipe")))).source(),
        Some(String::from("broken pipe"))
    );
    assert_eq!(ResolveTargetError::from("plain").source(), None);
    let inner = ResolveTargetError::from(("middle", GenericCause::new(String::from("inner"))));
    assert_eq!(
        CheckTargetError::from(("outer", inner)).source(),
        Some(String::from("middle caused by: inner"))
    );
    assert_eq!(
        CheckTargetError::from(GenericCause::new(String::from("inner"))).source(),
        Some(String::from("inner"))
    );
    assert_eq!(CheckTargetError::from("plain").source(), None);
}

#[test]
fn error_with_message_and_cause_keeps_both() {
    let error = ResolveTargetError::from(("lookup", IoCause::new(String::from("refused"))));
    assert_eq!(error.to_string(), "lookup caused by: refused");
    let error = CheckTargetError::from(("check", GenericCause::new(String::from("refused"))));
    assert_eq!(error.to_string(), "check caused by: refused");
    let error = ResolveTargetError::from(("resolve", GenericCause::new(String::from("refused"))));
    assert_eq!(error.to_string(), "resolve caused by: refused");
}

#[test]
fn cause_holds_its_description() {
    assert_eq!(ParseIntCause::new(String::from("a")).description(), "a");
    assert_eq!(IoCause::new(String::from("b")).description(), "b");
    assert_eq!(GenericCause::new(String::from("c")).description(), "c");
}
