//! What the library knows of a backend: the names of its native functions
//! and the formats it was built for.
//!
//! A backend is a fixed set of native functions. The library never calls
//! them; it names the one to call, and the application resolves the name to
//! the linked symbol.

use crate::common::{DataFormat, Driver};
use vstd::prelude::*;

verus! {

/// The interface variant of every built-in backend.
pub const API_DEFAULT: i32 = 0;

/// The native functions that every backend has.
#[derive(Clone, Copy, Debug, PartialEq, Eq, Hash, Structural)]
pub enum Native {
    NewEncoder,
    Encode,
    DestroyEncoder,
    TestEncode,
    SetBitrate,
    SetFramerate,
    NewDecoder,
    Decode,
    DestroyDecoder,
    TestDecode,
}

/// The name of one native function of one backend.
#[derive(Clone, Copy, Debug, PartialEq, Eq, Hash, Structural)]
pub struct EntryPoint {
    pub driver: Driver,
    pub function: Native,
}

/// The encoding functions of one backend.
#[derive(Clone, Copy, Debug, PartialEq, Eq, Hash, Structural)]
pub struct EncodeCalls {
    pub new: EntryPoint,
    pub encode: EntryPoint,
    pub destroy: EntryPoint,
    pub test: EntryPoint,
    pub set_bitrate: EntryPoint,
    pub set_framerate: EntryPoint,
}

/// The decoding functions of one backend.
#[derive(Clone, Copy, Debug, PartialEq, Eq, Hash, Structural)]
pub struct DecodeCalls {
    pub new: EntryPoint,
    pub decode: EntryPoint,
    pub destroy: EntryPoint,
    pub test: EntryPoint,
}

/// A format that a backend was built to encode, with the interface variant
/// it would use. Nothing has been tried on the hardware yet.
#[derive(Clone, Copy, Debug, PartialEq, Eq, Hash)]
pub struct InnerEncodeContext {
    pub api: i32,
    pub format: DataFormat,
}

/// A format that a backend was built to decode.
#[derive(Clone, Copy, Debug, PartialEq, Eq, Hash)]
pub struct InnerDecodeContext {
    pub data_format: DataFormat,
}

impl EncodeCalls {
    /// The encoding functions of `driver`: each slot names the function of
    /// that backend which does the slot's work.
    pub open spec fn of(driver: Driver) -> EncodeCalls {
        EncodeCalls {
            new: EntryPoint { driver, function: Native::NewEncoder },
            encode: EntryPoint { driver, function: Native::Encode },
            destroy: EntryPoint { driver, function: Native::DestroyEncoder },
            test: EntryPoint { driver, function: Native::TestEncode },
            set_bitrate: EntryPoint { driver, function: Native::SetBitrate },
            set_framerate: EntryPoint { driver, function: Native::SetFramerate },
        }
    }

    /// The table of the backend that `driver` selects.
    pub fn for_driver(driver: Driver) -> (calls: EncodeCalls)
        ensures
            calls == EncodeCalls::of(driver),
    {
        EncodeCalls {
            new: EntryPoint { driver, function: Native::NewEncoder },
            encode: EntryPoint { driver, function: Native::Encode },
            destroy: EntryPoint { driver, function: Native::DestroyEncoder },
            test: EntryPoint { driver, function: Native::TestEncode },
            set_bitrate: EntryPoint { driver, function: Native::SetBitrate },
            set_framerate: EntryPoint { driver, function: Native::SetFramerate },
        }
    }
}

impl DecodeCalls {
    /// The decoding functions of `driver`.
    pub open spec fn of(driver: Driver) -> DecodeCalls {
        DecodeCalls {
            new: EntryPoint { driver, function: Native::NewDecoder },
            decode: EntryPoint { driver, function: Native::Decode },
            destroy: EntryPoint { driver, function: Native::DestroyDecoder },
            test: EntryPoint { driver, function: Native::TestDecode },
        }
    }

    /// The table of the backend that `driver` selects.
    pub fn for_driver(driver: Driver) -> (calls: DecodeCalls)
        ensures
            calls == DecodeCalls::of(driver),
    {
        DecodeCalls {
            new: EntryPoint { driver, function: Native::NewDecoder },
            decode: EntryPoint { driver, function: Native::Decode },
            destroy: EntryPoint { driver, function: Native::DestroyDecoder },
            test: EntryPoint { driver, function: Native::TestDecode },
        }
    }
}

impl InnerEncodeContext {
    /// What a backend that handles every format can encode where its
    /// driver answers `driver_support` to the question whether it is
    /// there: every format if the answer is zero, nothing otherwise.
    pub open spec fn supported(driver_support: i32) -> Seq<InnerEncodeContext> {
        if driver_support == 0 {
            seq![
                InnerEncodeContext { api: API_DEFAULT, format: DataFormat::H264 },
                InnerEncodeContext { api: API_DEFAULT, format: DataFormat::H265 },
            ]
        } else {
            Seq::empty()
        }
    }
}

impl InnerDecodeContext {
    /// What a backend that handles every format can decode where its
    /// driver answers `driver_support` to the question whether it is
    /// there: every format if the answer is zero, nothing otherwise.
    pub open spec fn supported(driver_support: i32) -> Seq<InnerDecodeContext> {
        if driver_support == 0 {
            seq![
                InnerDecodeContext { data_format: DataFormat::H264 },
                InnerDecodeContext { data_format: DataFormat::H265 },
            ]
        } else {
            Seq::empty()
        }
    }
}

} // verus!
