//! The host's output channel, progress indicator, and user prompts: the
//! encodings handed to those calls and the interpretation of their
//! replies.  Timestamps for log lines come from the embedding layer,
//! which alone can read the clock.

use vstd::prelude::*;
use crate::error::XwfError;
use crate::marshal::{
    utf16_decoded, utf16_encoded, utf8_lossy_decoded, spec_nul_prefix, buf_to_wchar_cstr,
    string_to_wchar_cstr, wchar_str_to_string,
};

verus! {

/// Severity of a log line.
#[derive(Debug, Clone, Copy, PartialEq, Eq, Structural)]
pub enum LogLevel {
    Info,
    Warn,
    Error,
    Debug,
}

impl LogLevel {
    /// The tag written into a log line of this severity.
    #[verifier::allow_in_spec]
    pub fn tag(self) -> &'static str
        returns (match self {
            LogLevel::Info => "INFO",
            LogLevel::Warn => "WARN",
            LogLevel::Error => "ERROR",
            LogLevel::Debug => "DEBUG",
        })
    {
        match self {
            LogLevel::Info => "INFO",
            LogLevel::Warn => "WARN",
            LogLevel::Error => "ERROR",
            LogLevel::Debug => "DEBUG",
        }
    }
}

/// The text of one log line: the timestamp, the bracketed severity tag,
/// and the message.
pub fn format_log_line(level: LogLevel, timestamp: &str, msg: &str) -> (r: String)
    ensures
        r@ == timestamp@ + " ["@ + level.tag()@ + "]: "@ + msg@,
{
    let mut s = timestamp.to_owned();
    s.append(" [");
    s.append(level.tag());
    s.append("]: ");
    s.append(msg);
    proof {
        assert(s@ =~= timestamp@ + " ["@ + level.tag()@ + "]: "@ + msg@);
    }
    s
}

/// The entry points to the host's message window and progress bar.
pub struct Application {}

impl Application {
    pub fn new() -> (r: Application)
        ensures
            true,
    {
        Application {  }
    }

    /// The wide buffer to hand to the host's output call for a raw
    /// message: the bytes read as lossy UTF-8, with a terminator.
    pub fn output(msg: &[u8]) -> (r: Vec<u16>)
        ensures
            r@ == utf16_encoded(utf8_lossy_decoded(msg@)).push(0u16),
    {
        let text = crate::marshal::buf_to_utf8_string(msg);
        string_to_wchar_cstr(&text)
    }

    /// The wide buffer to hand to the host's output call for a text
    /// message.
    pub fn output_string(msg: &String) -> (r: Vec<u16>)
        ensures
            r@ == utf16_encoded(msg@).push(0u16),
    {
        string_to_wchar_cstr(msg)
    }

    /// The wide buffer for a plain log message; same encoding as
    /// `output_string`, sent with an empty flag word.
    pub fn log(msg: &String) -> (r: Vec<u16>)
        ensures
            r@ == utf16_encoded(msg@).push(0u16),
    {
        string_to_wchar_cstr(msg)
    }

    /// The wide buffer for the progress window's caption.
    pub fn show_progress(caption: &String) -> (r: Vec<u16>)
        ensures
            r@ == utf16_encoded(caption@).push(0u16),
    {
        string_to_wchar_cstr(caption)
    }

    /// The wide buffer for the progress window's description line.
    pub fn set_progress_description(caption: &String) -> (r: Vec<u16>)
        ensures
            r@ == utf16_encoded(caption@).push(0u16),
    {
        string_to_wchar_cstr(caption)
    }

    /// Interprets the host's should-stop reply: any non-zero word means
    /// the user asked to abort.
    pub fn should_stop(host_ret: i32) -> (r: Result<(), XwfError>)
        ensures
            r is Ok <==> host_ret == 0,
            r is Err ==> r == Err::<(), XwfError>(XwfError::OperationAbortedByUser),
    {
        if host_ret != 0 {
            Err(XwfError::OperationAbortedByUser)
        } else {
            Ok(())
        }
    }

    /// The percentage to report for `num` of `total` steps, rounded to
    /// the nearest whole percent; an empty total counts as complete.
    pub fn set_progress_percentage(num: u32, total: u32) -> (r: u32)
        requires
            num <= total,
        ensures
            total > 0 ==> r == (200 * (num as int) + total) / (2 * (total as int)),
            total == 0 ==> r == 100,
    {
        if total > 0 {
            let wide: u64 = (200u64 * (num as u64) + (total as u64)) / (2u64 * (total as u64));
            proof {
                assert(wide == (200 * (num as int) + total) / (2 * (total as int)));
                assert(wide <= 100) by (nonlinear_arith)
                    requires
                        wide == (200 * (num as int) + total) / (2 * (total as int)),
                        0 < total,
                        num <= total,
                ;
            }
            wide as u32
        } else {
            100
        }
    }

    /// Interprets the host's reply to an integer prompt: a negative
    /// reply means the user declined.
    pub fn get_user_input_integer(host_ret: i64) -> (r: Option<u64>)
        ensures
            host_ret < 0 <==> r is None,
            r matches Some(v) ==> v == host_ret,
    {
        if host_ret < 0 {
            None
        } else {
            Some(host_ret as u64)
        }
    }

    /// Interprets the host's reply to a text prompt: the text the host
    /// wrote into the buffer counts only for a positive reply.
    pub fn get_user_input_str(host_ret: i64, buf: &[u16]) -> (r: Option<String>)
        ensures
            host_ret > 0 <==> r is Some,
            r matches Some(s) ==> s@ == utf16_decoded(spec_nul_prefix(buf@)),
    {
        if host_ret > 0 {
            Some(wchar_str_to_string(buf))
        } else {
            None
        }
    }
}

} // verus!
