//! The decoded form of a response code, its classification and its message.
use vstd::prelude::*;
use crate::bits::{bit, bit_field, bit_range, bit_set};
use crate::decimal::{decimal, decimal_string};
use crate::kind::{error_table, format_one_table, warning_table, Tss2ResponseCodeKind};

verus! {

/// The fields of a response code in Format-Zero (bit 7 clear).
#[derive(PartialEq, Eq, Structural, Copy, Clone, Debug)]
pub struct FormatZeroResponseCode {
    /// Bits 0 to 6.
    pub error_number: u32,
    /// Bit 8.
    pub version: bool,
    /// Bit 10: the code is defined by the TPM vendor.
    pub tcg_vendor_indicator: bool,
    /// Bit 11: the code is a warning rather than an error.
    pub severity: bool,
}

/// The fields of a response code in Format-One (bit 7 set).
#[derive(PartialEq, Eq, Structural, Copy, Clone, Debug)]
pub struct FormatOneResponseCode {
    /// Bits 0 to 5.
    pub error_number: u32,
    /// Bit 6: `number` designates a command parameter.
    pub parameter: bool,
    /// Bits 8 to 11: the parameter, handle or session concerned.
    pub number: u32,
}

/// A response code, decoded according to the format that it uses.
#[derive(PartialEq, Eq, Structural, Copy, Clone, Debug)]
pub enum Tss2ResponseCode {
    Success,
    FormatZero(FormatZeroResponseCode),
    FormatOne(FormatOneResponseCode),
}

impl FormatZeroResponseCode {
    /// Each field fits in its bit range.
    pub open spec fn wf(self) -> bool {
        self.error_number < 0x80
    }
}

impl FormatOneResponseCode {
    /// Each field fits in its bit range.
    pub open spec fn wf(self) -> bool {
        &&& self.error_number < 0x40
        &&& self.number < 0x10
    }
}

/// Bit 7 of a nonzero code selects Format-One when set, Format-Zero when clear.
pub open spec fn format_selector(raw: u32) -> bool {
    bit_set(raw, 7)
}

/// The Format-Zero reading of a raw code.
pub open spec fn format_zero_fields(raw: u32) -> FormatZeroResponseCode {
    FormatZeroResponseCode {
        error_number: bit_field(raw, 6, 0),
        version: bit_set(raw, 8),
        tcg_vendor_indicator: bit_set(raw, 10),
        severity: bit_set(raw, 11),
    }
}

/// The Format-One reading of a raw code.
pub open spec fn format_one_fields(raw: u32) -> FormatOneResponseCode {
    FormatOneResponseCode {
        error_number: bit_field(raw, 5, 0),
        parameter: bit_set(raw, 6),
        number: bit_field(raw, 11, 8),
    }
}

/// The decoded form of a raw code: zero is success, and otherwise bit 7
/// chooses the format in which the other bits are read.
pub open spec fn decode(raw: u32) -> Tss2ResponseCode {
    if raw == 0 {
        Tss2ResponseCode::Success
    } else if format_selector(raw) {
        Tss2ResponseCode::FormatOne(format_one_fields(raw))
    } else {
        Tss2ResponseCode::FormatZero(format_zero_fields(raw))
    }
}

/// The kind of a Format-Zero code: a vendor code whatever its other fields,
/// else a lookup in the warning or error table as the severity bit says.
pub open spec fn format_zero_kind(rc: FormatZeroResponseCode) -> Option<Tss2ResponseCodeKind> {
    if rc.tcg_vendor_indicator {
        Some(Tss2ResponseCodeKind::TpmVendorSpecific)
    } else if rc.severity {
        warning_table(rc.error_number)
    } else {
        error_table(rc.error_number)
    }
}

/// What a Format-One code concerns: a parameter when the parameter bit is
/// set, else a handle for numbers up to 7, else the session `number - 8`.
pub open spec fn associated_phrase(rc: FormatOneResponseCode) -> Seq<char> {
    if rc.parameter {
        "associated with parameter number "@ + decimal(rc.number as nat)
    } else if rc.number <= 7 {
        "associated with handle number "@ + decimal(rc.number as nat)
    } else {
        "associated with session number "@ + decimal((rc.number - 8) as nat)
    }
}

impl Tss2ResponseCode {
    /// Each field of the code fits in its bit range.
    pub open spec fn wf(self) -> bool {
        match self {
            Tss2ResponseCode::Success => true,
            Tss2ResponseCode::FormatZero(rc) => rc.wf(),
            Tss2ResponseCode::FormatOne(rc) => rc.wf(),
        }
    }

    /// The classification of the code; `None` for an error number that its
    /// table does not hold.
    pub open spec fn spec_kind(self) -> Option<Tss2ResponseCodeKind> {
        match self {
            Tss2ResponseCode::Success => Some(Tss2ResponseCodeKind::Success),
            Tss2ResponseCode::FormatZero(rc) => format_zero_kind(rc),
            Tss2ResponseCode::FormatOne(rc) => format_one_table(rc.error_number),
        }
    }

    /// The phrase naming what a Format-One code concerns.
    pub open spec fn spec_associated_message(self) -> Seq<char> {
        match self {
            Tss2ResponseCode::FormatOne(rc) => associated_phrase(rc),
            _ => "no associated message"@,
        }
    }

    /// The human-readable message of the code.
    pub open spec fn spec_message(self) -> Seq<char> {
        match self.spec_kind() {
            None => "response code not recognized"@,
            Some(kind) => match self {
                Tss2ResponseCode::FormatOne(rc) => kind.spec_description() + " ("@
                    + associated_phrase(rc) + ")"@,
                Tss2ResponseCode::FormatZero(rc) => if kind is TpmVendorSpecific {
                    "vendor specific error: "@ + decimal(rc.error_number as nat)
                } else {
                    kind.spec_description()
                },
                Tss2ResponseCode::Success => kind.spec_description(),
            },
        }
    }

    /// Decodes a raw response code.
    pub fn from_tss_rc(response_code: u32) -> (r: Self)
        ensures
            r == decode(response_code),
            r.wf(),
    {
        proof {
            let raw = response_code;
            assert(bit_field(raw, 6, 0) < 0x80) by (bit_vector);
            assert(bit_field(raw, 5, 0) < 0x40) by (bit_vector);
            assert(bit_field(raw, 11, 8) < 0x10) by (bit_vector);
        }
        if response_code == 0 {
            Tss2ResponseCode::Success
        } else if bit(response_code, 7) {
            Tss2ResponseCode::FormatOne(
                FormatOneResponseCode {
                    error_number: bit_range(response_code, 5, 0),
                    parameter: bit(response_code, 6),
                    number: bit_range(response_code, 11, 8),
                },
            )
        } else {
            Tss2ResponseCode::FormatZero(
                FormatZeroResponseCode {
                    error_number: bit_range(response_code, 6, 0),
                    version: bit(response_code, 8),
                    tcg_vendor_indicator: bit(response_code, 10),
                    severity: bit(response_code, 11),
                },
            )
        }
    }

    /// Whether the code reports success.
    pub fn is_success(self) -> (r: bool)
        ensures
            r == (self is Success),
    {
        self == Tss2ResponseCode::Success
    }

    fn is_warning(self) -> (r: bool)
        ensures
            r == (self matches Tss2ResponseCode::FormatZero(rc) && rc.severity),
    {
        match self {
            Tss2ResponseCode::Success => false,
            Tss2ResponseCode::FormatZero(rc) => rc.severity,
            Tss2ResponseCode::FormatOne(_) => false,
        }
    }

    fn error_number(self) -> (r: u32)
        ensures
            r == match self {
                Tss2ResponseCode::Success => 0,
                Tss2ResponseCode::FormatZero(rc) => rc.error_number,
                Tss2ResponseCode::FormatOne(rc) => rc.error_number,
            },
    {
        match self {
            Tss2ResponseCode::Success => 0,
            Tss2ResponseCode::FormatZero(rc) => rc.error_number,
            Tss2ResponseCode::FormatOne(rc) => rc.error_number,
        }
    }

    /// The phrase naming the parameter, handle or session that a Format-One
    /// code concerns.
    pub fn get_associated_number_message(self) -> (r: String)
        ensures
            r@ == self.spec_associated_message(),
    {
        if let Tss2ResponseCode::FormatOne(rc) = self {
            if rc.parameter {
                let mut s = String::from_str("associated with parameter number ");
                s.append(decimal_string(rc.number).as_str());
                s
            } else if rc.number <= 0b0111 {
                let mut s = String::from_str("associated with handle number ");
                s.append(decimal_string(rc.number).as_str());
                s
            } else {
                let mut s = String::from_str("associated with session number ");
                s.append(decimal_string(rc.number - 8).as_str());
                s
            }
        } else {
            String::from_str("no associated message")
        }
    }

    /// Classifies the code.
    pub fn kind(self) -> (r: Option<Tss2ResponseCodeKind>)
        ensures
            r == self.spec_kind(),
    {
        match self {
            Tss2ResponseCode::Success => Some(Tss2ResponseCodeKind::Success),
            Tss2ResponseCode::FormatZero(rc) => {
                if rc.tcg_vendor_indicator {
                    Some(Tss2ResponseCodeKind::TpmVendorSpecific)
                } else if self.is_warning() {
                    match self.error_number() {
                        0x001 => Some(Tss2ResponseCodeKind::ContextGap),
                        0x002 => Some(Tss2ResponseCodeKind::ObjectMemory),
                        0x003 => Some(Tss2ResponseCodeKind::SessionMemory),
                        0x004 => Some(Tss2ResponseCodeKind::Memory),
                        0x005 => Some(Tss2ResponseCodeKind::SessionHandles),
                        0x006 => Some(Tss2ResponseCodeKind::ObjectHandles),
                        0x007 => Some(Tss2ResponseCodeKind::Locality),
                        0x008 => Some(Tss2ResponseCodeKind::Yielded),
                        0x009 => Some(Tss2ResponseCodeKind::Canceled),
                        0x00A => Some(Tss2ResponseCodeKind::Testing),
                        0x010 => Some(Tss2ResponseCodeKind::ReferenceH0),
                        0x011 => Some(Tss2ResponseCodeKind::ReferenceH1),
                        0x012 => Some(Tss2ResponseCodeKind::ReferenceH2),
                        0x013 => Some(Tss2ResponseCodeKind::ReferenceH3),
                        0x014 => Some(Tss2ResponseCodeKind::ReferenceH4),
                        0x015 => Some(Tss2ResponseCodeKind::ReferenceH5),
                        0x016 => Some(Tss2ResponseCodeKind::ReferenceH6),
                        0x018 => Some(Tss2ResponseCodeKind::ReferenceS0),
                        0x019 => Some(Tss2ResponseCodeKind::ReferenceS1),
                        0x01A => Some(Tss2ResponseCodeKind::ReferenceS2),
                        0x01B => Some(Tss2ResponseCodeKind::ReferenceS3),
                        0x01C => Some(Tss2ResponseCodeKind::ReferenceS4),
                        0x01D => Some(Tss2ResponseCodeKind::ReferenceS5),
                        0x01E => Some(Tss2ResponseCodeKind::ReferenceS6),
                        0x020 => Some(Tss2ResponseCodeKind::NvRate),
                        0x021 => Some(Tss2ResponseCodeKind::Lockout),
                        0x022 => Some(Tss2ResponseCodeKind::Retry),
                        0x023 => Some(Tss2ResponseCodeKind::NvUnavailable),
                        _ => None,
                    }
                } else {
                    match self.error_number() {
                        0x000 => Some(Tss2ResponseCodeKind::Initialize),
                        0x001 => Some(Tss2ResponseCodeKind::Failure),
                        0x003 => Some(Tss2ResponseCodeKind::Sequence),
                        0x00B => Some(Tss2ResponseCodeKind::Private),
                        0x019 => Some(Tss2ResponseCodeKind::Hmac),
                        0x020 => Some(Tss2ResponseCodeKind::Disabled),
                        0x021 => Some(Tss2ResponseCodeKind::Exclusive),
                        0x024 => Some(Tss2ResponseCodeKind::AuthType),
                        0x025 => Some(Tss2ResponseCodeKind::AuthMissing),
                        0x026 => Some(Tss2ResponseCodeKind::Policy),
                        0x027 => Some(Tss2ResponseCodeKind::Pcr),
                        0x028 => Some(Tss2ResponseCodeKind::PcrChanged),
                        0x02D => Some(Tss2ResponseCodeKind::Upgrade),
                        0x02E => Some(Tss2ResponseCodeKind::TooManyContexts),
                        0x02F => Some(Tss2ResponseCodeKind::AuthUnavailable),
                        0x030 => Some(Tss2ResponseCodeKind::Reboot),
                        0x031 => Some(Tss2ResponseCodeKind::Unbalanced),
                        0x042 => Some(Tss2ResponseCodeKind::CommandSize),
                        0x043 => Some(Tss2ResponseCodeKind::CommandCode),
                        0x044 => Some(Tss2ResponseCodeKind::AuthSize),
                        0x045 => Some(Tss2ResponseCodeKind::AuthContext),
                        0x046 => Some(Tss2ResponseCodeKind::NvRange),
                        0x047 => Some(Tss2ResponseCodeKind::NvSize),
                        0x048 => Some(Tss2ResponseCodeKind::NvLocked),
                        0x049 => Some(Tss2ResponseCodeKind::NvAuthorization),
                        0x04A => Some(Tss2ResponseCodeKind::NvUninitialized),
                        0x04B => Some(Tss2ResponseCodeKind::NvSpace),
                        0x04C => Some(Tss2ResponseCodeKind::NvDefined),
                        0x050 => Some(Tss2ResponseCodeKind::BadContext),
                        0x051 => Some(Tss2ResponseCodeKind::CpHash),
                        0x052 => Some(Tss2ResponseCodeKind::Parent),
                        0x053 => Some(Tss2ResponseCodeKind::NeedsTest),
                        0x054 => Some(Tss2ResponseCodeKind::NoResult),
                        0x055 => Some(Tss2ResponseCodeKind::Sensitive),
                        _ => None,
                    }
                }
            },
            Tss2ResponseCode::FormatOne(_) => match self.error_number() {
                0x001 => Some(Tss2ResponseCodeKind::Asymmetric),
                0x002 => Some(Tss2ResponseCodeKind::Attributes),
                0x003 => Some(Tss2ResponseCodeKind::Hash),
                0x004 => Some(Tss2ResponseCodeKind::Value),
                0x005 => Some(Tss2ResponseCodeKind::Hierarchy),
                0x007 => Some(Tss2ResponseCodeKind::KeySize),
                0x008 => Some(Tss2ResponseCodeKind::Mgf),
                0x009 => Some(Tss2ResponseCodeKind::Mode),
                0x00A => Some(Tss2ResponseCodeKind::Type),
                0x00B => Some(Tss2ResponseCodeKind::Handle),
                0x00C => Some(Tss2ResponseCodeKind::Kdf),
                0x00D => Some(Tss2ResponseCodeKind::Range),
                0x00E => Some(Tss2ResponseCodeKind::AuthFail),
                0x00F => Some(Tss2ResponseCodeKind::Nonce),
                0x010 => Some(Tss2ResponseCodeKind::Pp),
                0x012 => Some(Tss2ResponseCodeKind::Scheme),
                0x015 => Some(Tss2ResponseCodeKind::Size),
                0x016 => Some(Tss2ResponseCodeKind::Symmetric),
                0x017 => Some(Tss2ResponseCodeKind::Tag),
                0x018 => Some(Tss2ResponseCodeKind::Selector),
                0x01A => Some(Tss2ResponseCodeKind::Insufficient),
                0x01B => Some(Tss2ResponseCodeKind::Signature),
                0x01C => Some(Tss2ResponseCodeKind::Key),
                0x01D => Some(Tss2ResponseCodeKind::PolicyFail),
                0x01F => Some(Tss2ResponseCodeKind::Integrity),
                0x020 => Some(Tss2ResponseCodeKind::Ticket),
                0x021 => Some(Tss2ResponseCodeKind::ReservedBits),
                0x022 => Some(Tss2ResponseCodeKind::BadAuth),
                0x023 => Some(Tss2ResponseCodeKind::Expired),
                0x024 => Some(Tss2ResponseCodeKind::PolicyCc),
                0x025 => Some(Tss2ResponseCodeKind::Binding),
                0x026 => Some(Tss2ResponseCodeKind::Curve),
                0x027 => Some(Tss2ResponseCodeKind::EccPoint),
                _ => None,
            },
        }
    }

    /// The human-readable message of the code.
    pub fn message(self) -> (r: String)
        ensures
            r@ == self.spec_message(),
    {
        match self.kind() {
            None => String::from_str("response code not recognized"),
            Some(kind) => match self {
                Tss2ResponseCode::FormatOne(_) => {
                    let mut s = String::from_str(kind.description());
                    s.append(" (");
                    s.append(self.get_associated_number_message().as_str());
                    s.append(")");
                    s
                },
                _ => {
                    if kind == Tss2ResponseCodeKind::TpmVendorSpecific {
                        let mut s = String::from_str("vendor specific error: ");
                        s.append(decimal_string(self.error_number()).as_str());
                        s
                    } else {
                        String::from_str(kind.description())
                    }
                },
            },
        }
    }
}

impl From<u32> for Tss2ResponseCode {
    fn from(rc: u32) -> Self {
        Tss2ResponseCode::from_tss_rc(rc)
    }
}

impl vstd::std_specs::convert::FromSpecImpl<u32> for Tss2ResponseCode {
    open spec fn obeys_from_spec() -> bool {
        true
    }

    open spec fn from_spec(v: u32) -> Self {
        decode(v)
    }
}

} // verus!
