//! Values shared with the native backends.

use vstd::prelude::*;

verus! {

/// The backends: three hardware vendors and the software fallback.
#[derive(Clone, Copy, Debug, PartialEq, Eq, Hash, Structural)]
pub enum Driver {
    NV,
    AMF,
    MFX,
    FFMPEG,
}

/// The bitstream formats an encoder can produce.
#[derive(Clone, Copy, Debug, PartialEq, Eq, Hash, Structural)]
pub enum DataFormat {
    H264,
    H265,
}

impl Driver {
    /// Whether the native test calls of this backend must run one at a
    /// time, also with respect to those of every other backend of which
    /// this holds.
    pub open spec fn spec_requires_serialization(self) -> bool {
        self == Driver::NV || self == Driver::FFMPEG
    }

    /// Whether the native test calls of this backend must run one at a
    /// time.
    #[verifier::when_used_as_spec(spec_requires_serialization)]
    pub fn requires_serialization(self) -> (r: bool)
        ensures
            r == self.spec_requires_serialization(),
    {
        match self {
            Driver::NV | Driver::FFMPEG => true,
            Driver::AMF | Driver::MFX => false,
        }
    }
}

impl DataFormat {
    /// The number by which the native backends know this format.
    pub open spec fn spec_code(self) -> i32 {
        match self {
            DataFormat::H264 => 0i32,
            DataFormat::H265 => 1i32,
        }
    }

    /// The number by which the native backends know this format.
    #[verifier::when_used_as_spec(spec_code)]
    pub fn code(self) -> (r: i32)
        ensures
            r == self.spec_code(),
    {
        match self {
            DataFormat::H264 => 0,
            DataFormat::H265 => 1,
        }
    }
}

/// What a backend reports of one adapter that accepted a configuration.
#[derive(Clone, Copy, Debug, PartialEq, Eq, Hash)]
pub struct AdapterDesc {
    pub luid: i64,
}

} // verus!
