//! The host's version word and the compatibility check run during `Init`.

use vstd::prelude::*;

verus! {

/// Lowest host version this binding supports, as (major, minor).
pub const MIN_VERSION_MAJOR: u16 = 20;

/// Minor part of the lowest supported host version.
pub const MIN_VERSION_MINOR: u16 = 0;

/// The host's version, unpacked from the 32-bit word handed to `Init`.
///
/// The high 16 bits of the word hold `major * 100 + minor`, the next 8 bits
/// the service release, and the low 8 bits the language.
#[derive(Debug, Clone, Copy, PartialEq, Eq, Structural)]
pub struct XtVersion {
    pub major: u16,
    pub minor: u16,
    pub service_release: u8,
    pub language: u8,
}

/// The combined version field packed into the high 16 bits of the word.
pub open spec fn spec_version_field(value: u32) -> u32 {
    value / 0x10000
}

impl XtVersion {
    /// Unpacks the version word; a word whose version field is zero is invalid.
    pub fn try_from(value: u32) -> (r: Result<XtVersion, ()>)
        ensures
            spec_version_field(value) == 0 <==> r is Err,
            r matches Ok(v) ==> {
                &&& v.major == spec_version_field(value) / 100
                &&& v.minor == spec_version_field(value) % 100
                &&& v.service_release == (value / 0x100) % 0x100
                &&& v.language == value % 0x100
            },
    {
        if value == 0 {
            return Err(());
        }
        let version: u16 = (value / 0x10000) as u16;
        if version == 0 {
            return Err(());
        }
        Ok(XtVersion {
            major: version / 100,
            minor: version % 100,
            service_release: ((value / 0x100) % 0x100) as u8,
            language: (value % 0x100) as u8,
        })
    }
}

/// True when the given version is at least the minimum supported one.
pub open spec fn spec_version_supported(v: XtVersion) -> bool {
    ||| v.major > MIN_VERSION_MAJOR
    ||| (v.major == MIN_VERSION_MAJOR && v.minor >= MIN_VERSION_MINOR)
}

/// Accepts exactly the host versions at or above the supported minimum.
pub fn check_supported_xwf_version(version: XtVersion) -> (r: Result<(), crate::error::XwfError>)
    ensures
        r is Ok <==> spec_version_supported(version),
        r is Err ==> r == Err::<(), crate::error::XwfError>(
            crate::error::XwfError::IncompatibleXwfVersion(
                version,
                MIN_VERSION_MAJOR,
                MIN_VERSION_MINOR,
            ),
        ),
{
    if version.major < MIN_VERSION_MAJOR || (version.major == MIN_VERSION_MAJOR && version.minor
        < MIN_VERSION_MINOR) {
        Err(
            crate::error::XwfError::IncompatibleXwfVersion(
                version,
                MIN_VERSION_MAJOR,
                MIN_VERSION_MINOR,
            ),
        )
    } else {
        Ok(())
    }
}

} // verus!
