use xwf_api::application::{Application, LogLevel, format_log_line};
use xwf_api::decimal::{format_i64, format_u64};
use xwf_api::error::XwfError;
use xwf_api::marshal::{
    buf_to_wchar_cstr, eq_ignore_ascii_case, split_char, split_values_by_comma,
    string_to_wchar_cstr, wchar_str_to_string,
};

#[test]
fn decode_stops_at_first_nul() {
    let buf: Vec<u16> = vec![0x61, 0x62, 0, 0x63, 0x64];
    assert_eq!(wchar_str_to_string(&buf), "ab");
}

#[test]
fn decode_without_nul_takes_whole_buffer() {
    let buf: Vec<u16> = vec![0x61, 0x62, 0x63];
    assert_eq!(wchar_str_to_string(&buf), "abc");
}

#[test]
fn decode_of_leading_nul_is_empty() {
    let buf: Vec<u16> = vec![0, 0x61];
    assert_eq!(wchar_str_to_string(&buf), "");
    let empty: Vec<u16> = vec![];
    assert_eq!(wchar_str_to_string(&empty), "");
}

#[test]
fn decode_handles_non_ascii_units() {
    let buf: Vec<u16> = vec![0x00e9, 0];
    assert_eq!(wchar_str_to_string(&buf), "\u{e9}");
}

#[test]
fn encode_appends_single_terminator() {
    let s = String::from("ab");
    assert_eq!(string_to_wchar_cstr(&s), vec![0x61, 0x62, 0]);
}

#[test]
fn encode_of_bytes_appends_double_terminator() {
    assert_eq!(buf_to_wchar_cstr(b"hi"), vec![0x68, 0x69, 0, 0]);
}

#[test]
fn split_values_matches_expected_count() {
    let input = String::from("alpha, beta, gamma");
    let v = split_values_by_comma(&input, 3).unwrap();
    assert_eq!(v, vec!["alpha", "beta", "gamma"]);
}

#[test]
fn split_values_rejects_wrong_count() {
    let input = String::from("alpha, beta");
    assert_eq!(
        split_values_by_comma(&input, 3),
        Err(XwfError::GivenBufferToSmallForContent)
    );
}

#[test]
fn split_values_of_plain_text_is_one_piece() {
    let input = String::from("alpha");
    assert_eq!(split_values_by_comma(&input, 1).unwrap(), vec!["alpha"]);
    let empty = String::from("");
    assert_eq!(split_values_by_comma(&empty, 1).unwrap(), vec![""]);
}

#[test]
fn split_char_keeps_empty_pieces() {
    let v = split_char("a\n\nb", '\n');
    assert_eq!(v, vec!["a", "", "b"]);
}

#[test]
fn case_insensitive_comparison() {
    assert!(eq_ignore_ascii_case("PicTures", "pictures"));
    assert!(!eq_ignore_ascii_case("pictures", "picture"));
    assert!(eq_ignore_ascii_case("", ""));
}

#[test]
fn decimal_rendering() {
    assert_eq!(format_u64(0), "0");
    assert_eq!(format_u64(1234), "1234");
    assert_eq!(format_i64(-45), "-45");
    assert_eq!(format_i64(7), "7");
}

#[test]
fn log_line_layout() {
    assert_eq!(
        format_log_line(LogLevel::Info, "12:00:00", "hello"),
        "12:00:00 [INFO]: hello"
    );
    assert_eq!(format_log_line(LogLevel::Error, "a", "b"), "a [ERROR]: b");
}

#[test]
fn output_encodes_bytes_as_text() {
    assert_eq!(Application::output(b"hi"), vec![0x68, 0x69, 0]);
}

#[test]
fn progress_percentage_rounds_to_nearest() {
    assert_eq!(Application::set_progress_percentage(1, 3), 33);
    assert_eq!(Application::set_progress_percentage(2, 3), 67);
    assert_eq!(Application::set_progress_percentage(1, 2), 50);
    assert_eq!(Application::set_progress_percentage(0, 0), 100);
    assert_eq!(Application::set_progress_percentage(5, 5), 100);
}

#[test]
fn should_stop_signals_abort() {
    assert_eq!(Application::should_stop(0), Ok(()));
    assert_eq!(
        Application::should_stop(1),
        Err(XwfError::OperationAbortedByUser)
    );
}

#[test]
fn user_input_replies() {
    assert_eq!(Application::get_user_input_integer(-1), None);
    assert_eq!(Application::get_user_input_integer(7), Some(7));
    let buf: Vec<u16> = vec![0x61, 0];
    assert_eq!(Application::get_user_input_str(1, &buf), Some(String::from("a")));
    assert_eq!(Application::get_user_input_str(0, &buf), None);
}

#[test]
fn error_messages_name_the_failure() {
    assert_eq!(
        XwfError::InvalidEnumValue("ItemInfoDeletion", 9).message(),
        "invalid/undefined enum value 9 for type ItemInfoDeletion"
    );
    assert_eq!(
        XwfError::XwfFunctionCallFailed("get_vs_prop").message(),
        "XWF function call get_vs_prop failed"
    );
    assert_eq!(XwfError::InputHandleIsNull.message(), "input handle is null");
    assert_eq!(
        XwfError::IoError(String::from("boom")).message(),
        "io error occurred: boom"
    );
}
