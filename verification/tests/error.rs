use mmal_rs::error::{
    convert_status, decimal_text, err_log_eligible, log_deinit, parse_u8, status_result, Cause,
    MmalError,
};
use mmal_rs::{cst, msgf};

#[test]
fn success_status_converts_to_ok() {
    assert!(convert_status(0, || "unused".to_owned()).is_ok());
    assert!(cst(0, || "unused".to_owned()).is_ok());
    assert!(status_result(0, "unused").is_ok());
}

#[test]
fn message_is_written_only_for_a_failure() {
    let written = std::cell::Cell::new(0);
    let r = convert_status(0, || {
        written.set(written.get() + 1);
        "m".to_owned()
    });
    assert!(r.is_ok());
    assert_eq!(written.get(), 0);
    let r = convert_status(7, || {
        written.set(written.get() + 1);
        "m".to_owned()
    });
    assert!(r.is_err());
    assert_eq!(written.get(), 1);
}

#[test]
fn failing_status_carries_status_and_message() {
    let e = convert_status(3, || "camera: unable to enable".to_owned()).unwrap_err();
    assert_eq!(e.cause(), Cause::Status(3));
    assert_eq!(e.status(), Some(3));
    assert_eq!(e.message(), "camera: unable to enable");
    assert_eq!(e.to_text("EINVAL"), "[EINVAL/3]: camera: unable to enable");
    let e = cst(1, || "no memory".to_owned()).unwrap_err();
    assert_eq!(e.cause(), Cause::Status(1));
    assert_eq!(e.message(), "no memory");
    let e = status_result(4, "not implemented").unwrap_err();
    assert_eq!(e.cause(), Cause::Status(4));
    assert_eq!(e.message(), "not implemented");
}

#[test]
fn decimal_text_of_numbers() {
    assert_eq!(decimal_text(0), "0");
    assert_eq!(decimal_text(7), "7");
    assert_eq!(decimal_text(10), "10");
    assert_eq!(decimal_text(1050), "1050");
    assert_eq!(decimal_text(4294967295), "4294967295");
    for n in [1u32, 9, 11, 99, 100, 101, 65536, 2147483647] {
        assert_eq!(decimal_text(n), format!("{}", n));
    }
}

#[test]
fn error_text_of_each_cause() {
    assert_eq!(MmalError::with_cause(Cause::CreatePool).to_text(""), "(create pool)");
    assert_eq!(MmalError::with_cause(Cause::CreateQueue).to_text(""), "(create queue)");
    assert_eq!(MmalError::with_cause(Cause::QueueEmpty).to_text(""), "(queue empty)");
    assert_eq!(MmalError::with_cause(Cause::GetPort).to_text(""), "(get port)");
    assert_eq!(
        MmalError::with_cause(Cause::InvalidEnumValue).to_text(""),
        "(invalid enum value"
    );
    assert_eq!(MmalError::with_status(2, String::new()).to_text("ENOSPC"), "[ENOSPC/2]");
    assert_eq!(MmalError::with_status(12, String::new()).to_text(""), "[/12]");
}

#[test]
fn error_text_with_message() {
    let e = MmalError::new(Cause::InvalidEnumValue, "invalid binary value 99 for `Mirror`".to_owned());
    assert_eq!(e.cause(), Cause::InvalidEnumValue);
    assert_eq!(e.status(), None);
    assert_eq!(e.message(), "invalid binary value 99 for `Mirror`");
    assert_eq!(
        e.to_text("ignored"),
        "(invalid enum value: invalid binary value 99 for `Mirror`"
    );
    let e = MmalError::with_cause(Cause::QueueEmpty);
    assert_eq!(e.message(), "");
}

#[test]
fn failed_teardown_is_logged_only_when_logging_is_on() {
    assert_eq!(log_deinit(Ok(()), true, ""), None);
    assert_eq!(log_deinit(Ok(()), false, ""), None);
    let failure = || Err(MmalError::with_status(3, "mmal_component_destroy(camera)".to_owned()));
    assert_eq!(log_deinit(failure(), false, "EINVAL"), None);
    assert_eq!(
        log_deinit(failure(), true, "EINVAL"),
        Some("deinit error: [EINVAL/3]: mmal_component_destroy(camera)".to_owned())
    );
}

#[test]
fn message_of_an_entity() {
    assert_eq!(msgf("Unable to enable", "camera"), "Unable to enable camera");
    assert_eq!(msgf("", ""), " ");
}

#[test]
fn bytes_in_decimal_notation() {
    assert_eq!(parse_u8("0"), Some(0));
    assert_eq!(parse_u8("7"), Some(7));
    assert_eq!(parse_u8("255"), Some(255));
    assert_eq!(parse_u8("256"), None);
    assert_eq!(parse_u8("+12"), Some(12));
    assert_eq!(parse_u8("007"), Some(7));
    assert_eq!(parse_u8("0000000000000000255"), Some(255));
    assert_eq!(parse_u8("99999999999999999999999"), None);
    assert_eq!(parse_u8(""), None);
    assert_eq!(parse_u8("+"), None);
    assert_eq!(parse_u8("-1"), None);
    assert_eq!(parse_u8("-0"), None);
    assert_eq!(parse_u8("++1"), None);
    assert_eq!(parse_u8("1+"), None);
    assert_eq!(parse_u8(" 1"), None);
    assert_eq!(parse_u8("1 "), None);
    assert_eq!(parse_u8("12a"), None);
    assert_eq!(parse_u8("2567x"), None);
    assert_eq!(parse_u8("٣"), None);
    for text in ["0", "1", "25", "255", "256", "300", "+0", "+255", "+256", "", "x", "1x", "0x10"] {
        assert_eq!(parse_u8(text), text.parse::<u8>().ok(), "{:?}", text);
    }
}

#[test]
fn log_switch_of_the_environment() {
    assert!(!err_log_eligible(None));
    assert!(err_log_eligible(Some("1")));
    assert!(err_log_eligible(Some("255")));
    assert!(err_log_eligible(Some("+3")));
    assert!(!err_log_eligible(Some("0")));
    assert!(!err_log_eligible(Some("000")));
    assert!(err_log_eligible(Some("true")));
    assert!(err_log_eligible(Some("yes")));
    assert!(!err_log_eligible(Some("True")));
    assert!(!err_log_eligible(Some("YES")));
    assert!(!err_log_eligible(Some("no")));
    assert!(!err_log_eligible(Some("false")));
    assert!(!err_log_eligible(Some("")));
    assert!(!err_log_eligible(Some("256")));
    assert!(!err_log_eligible(Some("-1")));
    assert!(!err_log_eligible(Some(" true")));
}
