use tss_response_code::decimal::decimal_string;
use tss_response_code::error::{Error, WrapperErrorKind};
use tss_response_code::kind::Tss2ResponseCodeKind;
use tss_response_code::response_code::{
    FormatOneResponseCode, FormatZeroResponseCode, Tss2ResponseCode,
};

fn zero(rc: u32) -> FormatZeroResponseCode {
    match Tss2ResponseCode::from_tss_rc(rc) {
        Tss2ResponseCode::FormatZero(z) => z,
        other => panic!("not Format-Zero: {:?}", other),
    }
}

fn one(rc: u32) -> FormatOneResponseCode {
    match Tss2ResponseCode::from_tss_rc(rc) {
        Tss2ResponseCode::FormatOne(o) => o,
        other => panic!("not Format-One: {:?}", other),
    }
}

#[test]
fn zero_is_success() {
    let rc = Tss2ResponseCode::from_tss_rc(0);
    assert_eq!(rc, Tss2ResponseCode::Success);
    assert!(rc.is_success());
    assert_eq!(rc.kind(), Some(Tss2ResponseCodeKind::Success));
    assert_eq!(rc.message(), "success");
    assert!(Error::from_tss_rc(0).is_success());
}

#[test]
fn nonzero_is_not_success() {
    for raw in [1u32, 0x80, 0x100, 0x1000, 0x8000_0000, 0xFFFF_FFFF] {
        assert!(!Tss2ResponseCode::from_tss_rc(raw).is_success());
        assert!(!Error::from_tss_rc(raw).is_success());
    }
}

#[test]
fn local_errors_are_never_success() {
    for kind in [
        WrapperErrorKind::WrongParamSize,
        WrapperErrorKind::ParamsMissing,
        WrapperErrorKind::InconsistentParams,
    ] {
        assert!(!Error::local_error(kind).is_success());
        assert_eq!(Error::local_error(kind), Error::WrapperError(kind));
    }
}

#[test]
fn selector_bit_chooses_format() {
    assert!(matches!(Tss2ResponseCode::from_tss_rc(0x80), Tss2ResponseCode::FormatOne(_)));
    assert!(matches!(Tss2ResponseCode::from_tss_rc(0x7F), Tss2ResponseCode::FormatZero(_)));
    assert!(matches!(Tss2ResponseCode::from_tss_rc(0xFFFF_FFFF), Tss2ResponseCode::FormatOne(_)));
    assert!(matches!(Tss2ResponseCode::from_tss_rc(0xFFFF_FF7F), Tss2ResponseCode::FormatZero(_)));
}

#[test]
fn format_zero_fields_are_read_from_their_bits() {
    assert_eq!(
        zero(0x0000_0D2A),
        FormatZeroResponseCode {
            error_number: 0x2A,
            version: true,
            tcg_vendor_indicator: true,
            severity: true,
        }
    );
    assert_eq!(
        zero(0xFFFF_F27F),
        FormatZeroResponseCode {
            error_number: 0x7F,
            version: false,
            tcg_vendor_indicator: false,
            severity: false,
        }
    );
}

#[test]
fn format_one_fields_are_read_from_their_bits() {
    assert_eq!(
        one(0x0000_0FFF),
        FormatOneResponseCode { error_number: 0x3F, parameter: true, number: 15 }
    );
    assert_eq!(
        one(0xFFFF_F0B5),
        FormatOneResponseCode { error_number: 0x35, parameter: false, number: 0 }
    );
}

#[test]
fn format_zero_round_trip() {
    for e in [0u32, 1, 0x23, 0x7F] {
        for v in [false, true] {
            for t in [false, true] {
                for s in [false, true] {
                    if e == 0 && !v && !t && !s {
                        continue;
                    }
                    let raw = e | (v as u32) << 8 | (t as u32) << 10 | (s as u32) << 11;
                    let expected = FormatZeroResponseCode {
                        error_number: e,
                        version: v,
                        tcg_vendor_indicator: t,
                        severity: s,
                    };
                    assert_eq!(zero(raw), expected);
                }
            }
        }
    }
}

#[test]
fn format_one_round_trip() {
    for e in [0u32, 1, 0x1B, 0x3F] {
        for p in [false, true] {
            for n in 0u32..16 {
                let raw = e | (p as u32) << 6 | 0x80 | n << 8;
                let expected = FormatOneResponseCode { error_number: e, parameter: p, number: n };
                assert_eq!(one(raw), expected);
            }
        }
    }
}

#[test]
fn all_fields_zero_in_format_zero_is_success() {
    assert_eq!(Tss2ResponseCode::from_tss_rc(0), Tss2ResponseCode::Success);
}

#[test]
fn scenario_success() {
    let rc = Tss2ResponseCode::from_tss_rc(0x0000_0000);
    assert_eq!(rc, Tss2ResponseCode::Success);
    assert_eq!(rc.message(), "success");
}

#[test]
fn scenario_session_memory_warning() {
    let rc = Tss2ResponseCode::from_tss_rc(0x0000_0803);
    assert_eq!(rc.kind(), Some(Tss2ResponseCodeKind::SessionMemory));
    assert_eq!(rc.message(), "out of memory for session contexts");
}

#[test]
fn scenario_vendor_specific() {
    let rc = Tss2ResponseCode::from_tss_rc(0x0000_0400);
    assert_eq!(rc.kind(), Some(Tss2ResponseCodeKind::TpmVendorSpecific));
    assert_eq!(rc.message(), "vendor specific error: 0");
}

#[test]
fn scenario_handle() {
    let rc = Tss2ResponseCode::from_tss_rc(0x0000_038B);
    assert_eq!(rc.kind(), Some(Tss2ResponseCodeKind::Handle));
    assert_eq!(
        rc.message(),
        "the handle is not correct for the use (associated with handle number 3)"
    );
}

#[test]
fn scenario_signature_session() {
    let rc = Tss2ResponseCode::from_tss_rc(0x0000_099B);
    assert_eq!(rc.kind(), Some(Tss2ResponseCodeKind::Signature));
    assert_eq!(rc.message(), "the signature is not valid (associated with session number 1)");
}

#[test]
fn scenario_value_parameter() {
    let rc = Tss2ResponseCode::from_tss_rc(0x0000_02C4);
    assert_eq!(rc.kind(), Some(Tss2ResponseCodeKind::Value));
    assert_eq!(
        rc.message(),
        "value is out of range or is not correct for the context (associated with parameter number 2)"
    );
}

#[test]
fn scenario_unrecognized() {
    // error number 2 is in no Format-Zero error entry, 0 in no warning entry,
    // and 0 and 6 in no Format-One entry
    for raw in [0x0000_0002u32, 0x0000_0102, 0x0000_0800, 0x0000_0080, 0x0000_0FC6] {
        let rc = Tss2ResponseCode::from_tss_rc(raw);
        assert_eq!(rc.kind(), None);
        assert_eq!(rc.message(), "response code not recognized");
    }
}

#[test]
fn vendor_bit_preempts_the_tables() {
    for raw in [0x400u32, 0x401, 0x47F, 0xC03, 0xD7F, 0x500] {
        let rc = Tss2ResponseCode::from_tss_rc(raw);
        assert_eq!(rc.kind(), Some(Tss2ResponseCodeKind::TpmVendorSpecific));
    }
    assert_eq!(Tss2ResponseCode::from_tss_rc(0xC7F).message(), "vendor specific error: 127");
    assert_eq!(Tss2ResponseCode::from_tss_rc(0x42A).message(), "vendor specific error: 42");
}

#[test]
fn handle_and_session_boundary() {
    // Format-One, error number 0x0B (Handle), parameter bit clear
    let seven = Tss2ResponseCode::from_tss_rc(0x78B);
    assert_eq!(seven.get_associated_number_message(), "associated with handle number 7");
    let eight = Tss2ResponseCode::from_tss_rc(0x88B);
    assert_eq!(eight.get_associated_number_message(), "associated with session number 0");
    let fifteen = Tss2ResponseCode::from_tss_rc(0xF8B);
    assert_eq!(fifteen.get_associated_number_message(), "associated with session number 7");
    let zero = Tss2ResponseCode::from_tss_rc(0x08B);
    assert_eq!(zero.get_associated_number_message(), "associated with handle number 0");
}

#[test]
fn parameter_bit_wins_over_the_boundary() {
    let rc = Tss2ResponseCode::from_tss_rc(0xFCB);
    assert_eq!(rc.get_associated_number_message(), "associated with parameter number 15");
    let rc = Tss2ResponseCode::from_tss_rc(0x8CB);
    assert_eq!(rc.get_associated_number_message(), "associated with parameter number 8");
}

#[test]
fn no_associated_message_outside_format_one() {
    assert_eq!(
        Tss2ResponseCode::Success.get_associated_number_message(),
        "no associated message"
    );
    assert_eq!(
        Tss2ResponseCode::from_tss_rc(0x803).get_associated_number_message(),
        "no associated message"
    );
}

#[test]
fn format_zero_error_messages() {
    let rc = Tss2ResponseCode::from_tss_rc(0x100);
    assert_eq!(rc.kind(), Some(Tss2ResponseCodeKind::Initialize));
    assert_eq!(rc.message(), "TPM not initialized by TPM2_Startup or already initialized");
    let rc = Tss2ResponseCode::from_tss_rc(0x143);
    assert_eq!(rc.kind(), Some(Tss2ResponseCodeKind::CommandCode));
    assert_eq!(rc.message(), "command code not supported");
    let rc = Tss2ResponseCode::from_tss_rc(0x155);
    assert_eq!(rc.kind(), Some(Tss2ResponseCodeKind::Sensitive));
}

#[test]
fn format_zero_warning_messages() {
    let rc = Tss2ResponseCode::from_tss_rc(0x922);
    assert_eq!(rc.kind(), Some(Tss2ResponseCodeKind::Retry));
    assert_eq!(rc.message(), "the TPM was not able to start the command");
    let rc = Tss2ResponseCode::from_tss_rc(0x91E);
    assert_eq!(rc.kind(), Some(Tss2ResponseCodeKind::ReferenceS6));
    assert_eq!(
        rc.message(),
        "the 7th authorization session handle references a session that is not loaded"
    );
}

#[test]
fn same_number_differs_by_namespace() {
    // error number 0x01 is Failure, ContextGap or Asymmetric by format and severity
    assert_eq!(Tss2ResponseCode::from_tss_rc(0x101).kind(), Some(Tss2ResponseCodeKind::Failure));
    assert_eq!(Tss2ResponseCode::from_tss_rc(0x901).kind(), Some(Tss2ResponseCodeKind::ContextGap));
    assert_eq!(Tss2ResponseCode::from_tss_rc(0x081).kind(), Some(Tss2ResponseCodeKind::Asymmetric));
}

#[test]
fn ticket_message_keeps_its_spacing() {
    let rc = Tss2ResponseCode::from_tss_rc(0xA0);
    assert_eq!(rc.kind(), Some(Tss2ResponseCodeKind::Ticket));
    assert_eq!(rc.message(), "invalid ticket  (associated with handle number 0)");
}

#[test]
fn upper_bits_are_ignored() {
    assert_eq!(
        Tss2ResponseCode::from_tss_rc(0xABCD_0803).kind(),
        Some(Tss2ResponseCodeKind::SessionMemory)
    );
}

#[test]
fn from_u32_decodes() {
    assert_eq!(Tss2ResponseCode::from(0x38Bu32), Tss2ResponseCode::from_tss_rc(0x38B));
    assert_eq!(Tss2ResponseCode::from(0u32), Tss2ResponseCode::Success);
}

#[test]
fn wrapper_error_messages() {
    assert_eq!(
        Error::local_error(WrapperErrorKind::WrongParamSize).message(),
        "parameter provided is of the wrong size"
    );
    assert_eq!(
        Error::local_error(WrapperErrorKind::ParamsMissing).message(),
        "some of the required parameters were not provided"
    );
    assert_eq!(
        WrapperErrorKind::InconsistentParams.message(),
        "the provided parameters have inconsistent values or variants"
    );
}

#[test]
fn error_message_delegates_to_the_code() {
    assert_eq!(Error::from_tss_rc(0x803).message(), "out of memory for session contexts");
    assert_eq!(Error::from_tss_rc(0).message(), "success");
}

#[test]
fn description_of_each_kind() {
    assert_eq!(Tss2ResponseCodeKind::Success.description(), "success");
    assert_eq!(Tss2ResponseCodeKind::Curve.description(), "curve not supported");
    assert_eq!(Tss2ResponseCodeKind::Pcr.description(), "PCR check fail");
}

#[test]
fn decimal_rendering() {
    assert_eq!(decimal_string(0), "0");
    assert_eq!(decimal_string(9), "9");
    assert_eq!(decimal_string(10), "10");
    assert_eq!(decimal_string(305), "305");
    assert_eq!(decimal_string(u32::MAX), "4294967295");
}
