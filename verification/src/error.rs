//! The error taxonomy shared by every fallible operation of the binding.

use vstd::prelude::*;
use crate::version::XtVersion;

verus! {

/// Everything that can go wrong between the host and the plugin.
///
/// Host-call failures carry the name of the failing host function; invalid
/// enum values carry the type name and the rejected raw value.  I/O failures
/// reach this crate only as the text of the underlying error, since the
/// operation itself runs outside it.
#[derive(Debug, Clone, PartialEq, Eq)]
pub enum XwfError {
    InvalidInputArgument,
    InputHandleIsNull,
    XwfFunctionCallFailed(&'static str),
    FailedToGetObjectHandle,
    FailedToSelectVolume,
    InvalidEnumValue(&'static str, i64),
    InvalidItemSize,
    ReadItemDataFailed,
    HashValueNotAvailable,
    GivenBufferToSmallForContent,
    NoEvidenceAvaible,
    OperationAbortedByUser,
    MaxItemIdExceeded,
    InvalidVersionNumber,
    IncompatibleXwfVersion(XtVersion, u16, u16),
    IoError(String),
}

/// The diagnostic line for each error.
pub open spec fn spec_message(e: XwfError) -> Seq<char> {
    match e {
        XwfError::InvalidInputArgument => "invalid input for argument"@,
        XwfError::InputHandleIsNull => "input handle is null"@,
        XwfError::XwfFunctionCallFailed(func) => "XWF function call "@ + func@ + " failed"@,
        XwfError::FailedToGetObjectHandle => "failed to get object handle"@,
        XwfError::FailedToSelectVolume => "failed to select volume"@,
        XwfError::InvalidEnumValue(name, v) => "invalid/undefined enum value "@
            + crate::decimal::spec_dec_int(v as int) + " for type "@ + name@,
        XwfError::InvalidItemSize => "invalid item size"@,
        XwfError::ReadItemDataFailed => "failed to read item data"@,
        XwfError::HashValueNotAvailable => "expected hash value is not available"@,
        XwfError::GivenBufferToSmallForContent => "given buffer to XWF was to small for the content"@,
        XwfError::NoEvidenceAvaible => "expected an evidence for processing"@,
        XwfError::OperationAbortedByUser => "current operation aborted by user"@,
        XwfError::MaxItemIdExceeded => "maximum ItemID exceeded (max of int32)"@,
        XwfError::InvalidVersionNumber => "invalid X-Ways Version Number detected"@,
        XwfError::IncompatibleXwfVersion(v, major, minor) => "XWF incompatibility detected: current version "@
            + crate::decimal::spec_dec_digits(v.major as nat) + "."@
            + crate::decimal::spec_dec_digits(v.minor as nat) + " SR-"@
            + crate::decimal::spec_dec_digits(v.service_release as nat)
            + ", minimal required version "@ + crate::decimal::spec_dec_digits(major as nat)
            + "."@ + crate::decimal::spec_dec_digits(minor as nat),
        XwfError::IoError(text) => "io error occurred: "@ + text@,
    }
}

impl XwfError {
    /// The diagnostic line for this error, as sent to the host's output
    /// channel.
    pub fn message(&self) -> (r: String)
        ensures
            r@ == spec_message(*self),
    {
        match self {
            XwfError::InvalidInputArgument => "invalid input for argument".to_owned(),
            XwfError::InputHandleIsNull => "input handle is null".to_owned(),
            XwfError::XwfFunctionCallFailed(func) => {
                let mut s = "XWF function call ".to_owned();
                s.append(func);
                s.append(" failed");
                proof {
                    assert(s@ =~= spec_message(*self));
                }
                s
            },
            XwfError::FailedToGetObjectHandle => "failed to get object handle".to_owned(),
            XwfError::FailedToSelectVolume => "failed to select volume".to_owned(),
            XwfError::InvalidEnumValue(name, v) => {
                let mut s = "invalid/undefined enum value ".to_owned();
                let num = crate::decimal::format_i64(*v);
                s.append(num.as_str());
                s.append(" for type ");
                s.append(name);
                proof {
                    assert(s@ =~= spec_message(*self));
                }
                s
            },
            XwfError::InvalidItemSize => "invalid item size".to_owned(),
            XwfError::ReadItemDataFailed => "failed to read item data".to_owned(),
            XwfError::HashValueNotAvailable => "expected hash value is not available".to_owned(),
            XwfError::GivenBufferToSmallForContent => "given buffer to XWF was to small for the content".to_owned(),
            XwfError::NoEvidenceAvaible => "expected an evidence for processing".to_owned(),
            XwfError::OperationAbortedByUser => "current operation aborted by user".to_owned(),
            XwfError::MaxItemIdExceeded => "maximum ItemID exceeded (max of int32)".to_owned(),
            XwfError::InvalidVersionNumber => "invalid X-Ways Version Number detected".to_owned(),
            XwfError::IncompatibleXwfVersion(v, major, minor) => {
                let mut s = "XWF incompatibility detected: current version ".to_owned();
                let n1 = crate::decimal::format_u64(v.major as u64);
                s.append(n1.as_str());
                s.append(".");
                let n2 = crate::decimal::format_u64(v.minor as u64);
                s.append(n2.as_str());
                s.append(" SR-");
                let n3 = crate::decimal::format_u64(v.service_release as u64);
                s.append(n3.as_str());
                s.append(", minimal required version ");
                let n4 = crate::decimal::format_u64(*major as u64);
                s.append(n4.as_str());
                s.append(".");
                let n5 = crate::decimal::format_u64(*minor as u64);
                s.append(n5.as_str());
                proof {
                    assert(s@ =~= spec_message(*self));
                }
                s
            },
            XwfError::IoError(text) => {
                let mut s = "io error occurred: ".to_owned();
                s.append(text.as_str());
                proof {
                    assert(s@ =~= spec_message(*self));
                }
                s
            },
        }
    }
}

} // verus!
