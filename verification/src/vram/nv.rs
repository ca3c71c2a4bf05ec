//! The first hardware backend.

use crate::common::{DataFormat, Driver};
use crate::vram::inner::{
    DecodeCalls, EncodeCalls, InnerDecodeContext, InnerEncodeContext, API_DEFAULT,
};
use vstd::prelude::*;

verus! {

/// The encoding functions of this backend.
pub fn encode_calls() -> (calls: EncodeCalls)
    ensures
        calls == EncodeCalls::of(Driver::NV),
{
    EncodeCalls::for_driver(Driver::NV)
}

/// The decoding functions of this backend.
pub fn decode_calls() -> (calls: DecodeCalls)
    ensures
        calls == DecodeCalls::of(Driver::NV),
{
    DecodeCalls::for_driver(Driver::NV)
}

/// The formats this backend could encode here, given the answer of the
/// native question whether its driver is there. No hardware is tried.
pub fn possible_support_encoders(driver_support: i32) -> (v: Vec<InnerEncodeContext>)
    ensures
        v@ == InnerEncodeContext::supported(driver_support),
{
    if driver_support != 0 {
        return Vec::new();
    }
    let data_formats = [DataFormat::H264, DataFormat::H265];
    let mut v: Vec<InnerEncodeContext> = Vec::new();
    let mut i: usize = 0;
    while i < data_formats.len()
        invariant
            i <= 2,
            data_formats@ == seq![DataFormat::H264, DataFormat::H265],
            v@ == InnerEncodeContext::supported(0).take(i as int),
        decreases 2 - i,
    {
        v.push(InnerEncodeContext { api: API_DEFAULT, format: data_formats[i] });
        i += 1;
    }
    v
}

/// The formats this backend could decode here, given the answer of the
/// native question whether its driver is there.
pub fn possible_support_decoders(driver_support: i32) -> (v: Vec<InnerDecodeContext>)
    ensures
        v@ == InnerDecodeContext::supported(driver_support),
{
    if driver_support != 0 {
        return Vec::new();
    }
    let data_formats = [DataFormat::H264, DataFormat::H265];
    let mut v: Vec<InnerDecodeContext> = Vec::new();
    let mut i: usize = 0;
    while i < data_formats.len()
        invariant
            i <= 2,
            data_formats@ == seq![DataFormat::H264, DataFormat::H265],
            v@ == InnerDecodeContext::supported(0).take(i as int),
        decreases 2 - i,
    {
        v.push(InnerDecodeContext { data_format: data_formats[i] });
        i += 1;
    }
    v
}

} // verus!
