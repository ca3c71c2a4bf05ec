use hwcodec::common::{DataFormat, Driver};
use hwcodec::vram::inner::{
    DecodeCalls, EncodeCalls, EntryPoint, InnerDecodeContext, InnerEncodeContext, Native,
    API_DEFAULT,
};
use hwcodec::vram::nv;
use hwcodec::vram::text::{decimal_text, signed_decimal_text};

#[test]
fn nv_encode_calls_names_the_six_functions() {
    let entry = |function: Native| EntryPoint { driver: Driver::NV, function };
    assert_eq!(
        nv::encode_calls(),
        EncodeCalls {
            new: entry(Native::NewEncoder),
            encode: entry(Native::Encode),
            destroy: entry(Native::DestroyEncoder),
            test: entry(Native::TestEncode),
            set_bitrate: entry(Native::SetBitrate),
            set_framerate: entry(Native::SetFramerate),
        }
    );
    assert_eq!(nv::encode_calls(), EncodeCalls::for_driver(Driver::NV));
}

#[test]
fn nv_decode_calls_names_the_four_functions() {
    let entry = |function: Native| EntryPoint { driver: Driver::NV, function };
    assert_eq!(
        nv::decode_calls(),
        DecodeCalls {
            new: entry(Native::NewDecoder),
            decode: entry(Native::Decode),
            destroy: entry(Native::DestroyDecoder),
            test: entry(Native::TestDecode),
        }
    );
    assert_eq!(nv::decode_calls(), DecodeCalls::for_driver(Driver::NV));
}

#[test]
fn tables_of_other_drivers_name_their_own_functions() {
    for driver in [Driver::AMF, Driver::MFX, Driver::FFMPEG] {
        let calls = EncodeCalls::for_driver(driver);
        assert_eq!(calls.new, EntryPoint { driver, function: Native::NewEncoder });
        assert_eq!(calls.test, EntryPoint { driver, function: Native::TestEncode });
        assert_ne!(calls, nv::encode_calls());
        let calls = DecodeCalls::for_driver(driver);
        assert_eq!(calls.decode, EntryPoint { driver, function: Native::Decode });
    }
}

#[test]
fn with_its_driver_nv_encodes_both_formats() {
    assert_eq!(
        nv::possible_support_encoders(0),
        vec![
            InnerEncodeContext { api: API_DEFAULT, format: DataFormat::H264 },
            InnerEncodeContext { api: API_DEFAULT, format: DataFormat::H265 },
        ]
    );
}

#[test]
fn without_its_driver_nv_encodes_nothing() {
    for answer in [-1, 1, 2, i32::MIN, i32::MAX] {
        assert_eq!(nv::possible_support_encoders(answer), vec![]);
    }
}

#[test]
fn with_its_driver_nv_decodes_both_formats() {
    assert_eq!(
        nv::possible_support_decoders(0),
        vec![
            InnerDecodeContext { data_format: DataFormat::H264 },
            InnerDecodeContext { data_format: DataFormat::H265 },
        ]
    );
}

#[test]
fn without_its_driver_nv_decodes_nothing() {
    for answer in [-1, 1, i32::MIN, i32::MAX] {
        assert_eq!(nv::possible_support_decoders(answer), vec![]);
    }
}

#[test]
fn formats_are_numbered_from_zero() {
    assert_eq!(DataFormat::H264.code(), 0);
    assert_eq!(DataFormat::H265.code(), 1);
}

#[test]
fn decimal_text_matches_the_standard_rendering() {
    for n in [0u64, 1, 9, 10, 11, 99, 100, 101, 999, 1000, 65535, u64::MAX] {
        assert_eq!(decimal_text(n), format!("{}", n));
    }
    assert_eq!(decimal_text(1080), "1080");
}

#[test]
fn signed_decimal_text_matches_the_standard_rendering() {
    for i in [0i64, 1, -1, 9, -9, 10, -10, 12345, -12345, i64::MAX, i64::MIN] {
        assert_eq!(signed_decimal_text(i), format!("{}", i));
    }
    assert_eq!(signed_decimal_text(-2147483648), "-2147483648");
}
