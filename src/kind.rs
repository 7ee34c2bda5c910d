//! The named conditions that a response code can stand for, and the three
//! numeric tables that map an error number to one of them.
use vstd::prelude::*;

verus! {

/// A named condition reported by a response code.
#[derive(PartialEq, Eq, Structural, Copy, Clone, Debug)]
pub enum Tss2ResponseCodeKind {
    // Outcomes outside the numeric tables
    Success,
    TpmVendorSpecific,
    // Format-Zero errors
    Initialize,
    Failure,
    Sequence,
    Private,
    Hmac,
    Disabled,
    Exclusive,
    AuthType,
    AuthMissing,
    Policy,
    Pcr,
    PcrChanged,
    Upgrade,
    TooManyContexts,
    AuthUnavailable,
    Reboot,
    Unbalanced,
    CommandSize,
    CommandCode,
    AuthSize,
    AuthContext,
    NvRange,
    NvSize,
    NvLocked,
    NvAuthorization,
    NvUninitialized,
    NvSpace,
    NvDefined,
    BadContext,
    CpHash,
    Parent,
    NeedsTest,
    NoResult,
    Sensitive,
    // Format-One errors
    Asymmetric,
    Attributes,
    Hash,
    Value,
    Hierarchy,
    KeySize,
    Mgf,
    Mode,
    Type,
    Handle,
    Kdf,
    Range,
    AuthFail,
    Nonce,
    Pp,
    Scheme,
    Size,
    Symmetric,
    Tag,
    Selector,
    Insufficient,
    Signature,
    Key,
    PolicyFail,
    Integrity,
    Ticket,
    ReservedBits,
    BadAuth,
    Expired,
    PolicyCc,
    Binding,
    Curve,
    EccPoint,
    // Format-Zero warnings
    ContextGap,
    ObjectMemory,
    SessionMemory,
    Memory,
    SessionHandles,
    ObjectHandles,
    Locality,
    Yielded,
    Canceled,
    Testing,
    ReferenceH0,
    ReferenceH1,
    ReferenceH2,
    ReferenceH3,
    ReferenceH4,
    ReferenceH5,
    ReferenceH6,
    ReferenceS0,
    ReferenceS1,
    ReferenceS2,
    ReferenceS3,
    ReferenceS4,
    ReferenceS5,
    ReferenceS6,
    NvRate,
    Lockout,
    Retry,
    NvUnavailable,
}

/// The Format-Zero warnings (severity bit set), by error number.
pub open spec fn warning_table(n: u32) -> Option<Tss2ResponseCodeKind> {
    match n {
        0x001 => Some(Tss2ResponseCodeKind::ContextGap),
        0x002 => Some(Tss2ResponseCodeKind::ObjectMemory),
        0x003 => Some(Tss2ResponseCodeKind::SessionMemory),
        0x004 => Some(Tss2ResponseCodeKind::Memory),
        0x005 => Some(Tss2ResponseCodeKind::SessionHandles),
        0x006 => Some(Tss2ResponseCodeKind::ObjectHandles),
        0x007 => Some(Tss2ResponseCodeKind::Locality),
        0x008 => Some(Tss2ResponseCodeKind::Yielded),
        0x009 => Some(Tss2ResponseCodeKind::Canceled),
        0x00A => Some(Tss2ResponseCodeKind::Testing),
        0x010 => Some(Tss2ResponseCodeKind::ReferenceH0),
        0x011 => Some(Tss2ResponseCodeKind::ReferenceH1),
        0x012 => Some(Tss2ResponseCodeKind::ReferenceH2),
        0x013 => Some(Tss2ResponseCodeKind::ReferenceH3),
        0x014 => Some(Tss2ResponseCodeKind::ReferenceH4),
        0x015 => Some(Tss2ResponseCodeKind::ReferenceH5),
        0x016 => Some(Tss2ResponseCodeKind::ReferenceH6),
        0x018 => Some(Tss2ResponseCodeKind::ReferenceS0),
        0x019 => Some(Tss2ResponseCodeKind::ReferenceS1),
        0x01A => Some(Tss2ResponseCodeKind::ReferenceS2),
        0x01B => Some(Tss2ResponseCodeKind::ReferenceS3),
        0x01C => Some(Tss2ResponseCodeKind::ReferenceS4),
        0x01D => Some(Tss2ResponseCodeKind::ReferenceS5),
        0x01E => Some(Tss2ResponseCodeKind::ReferenceS6),
        0x020 => Some(Tss2ResponseCodeKind::NvRate),
        0x021 => Some(Tss2ResponseCodeKind::Lockout),
        0x022 => Some(Tss2ResponseCodeKind::Retry),
        0x023 => Some(Tss2ResponseCodeKind::NvUnavailable),
        _ => None,
    }
}

/// The Format-Zero errors (severity bit clear), by error number.
pub open spec fn error_table(n: u32) -> Option<Tss2ResponseCodeKind> {
    match n {
        0x000 => Some(Tss2ResponseCodeKind::Initialize),
        0x001 => Some(Tss2ResponseCodeKind::Failure),
        0x003 => Some(Tss2ResponseCodeKind::Sequence),
        0x00B => Some(Tss2ResponseCodeKind::Private),
        0x019 => Some(Tss2ResponseCodeKind::Hmac),
        0x020 => Some(Tss2ResponseCodeKind::Disabled),
        0x021 => Some(Tss2ResponseCodeKind::Exclusive),
        0x024 => Some(Tss2ResponseCodeKind::AuthType),
        0x025 => Some(Tss2ResponseCodeKind::AuthMissing),
        0x026 => Some(Tss2ResponseCodeKind::Policy),
        0x027 => Some(Tss2ResponseCodeKind::Pcr),
        0x028 => Some(Tss2ResponseCodeKind::PcrChanged),
        0x02D => Some(Tss2ResponseCodeKind::Upgrade),
        0x02E => Some(Tss2ResponseCodeKind::TooManyContexts),
        0x02F => Some(Tss2ResponseCodeKind::AuthUnavailable),
        0x030 => Some(Tss2ResponseCodeKind::Reboot),
        0x031 => Some(Tss2ResponseCodeKind::Unbalanced),
        0x042 => Some(Tss2ResponseCodeKind::CommandSize),
        0x043 => Some(Tss2ResponseCodeKind::CommandCode),
        0x044 => Some(Tss2ResponseCodeKind::AuthSize),
        0x045 => Some(Tss2ResponseCodeKind::AuthContext),
        0x046 => Some(Tss2ResponseCodeKind::NvRange),
        0x047 => Some(Tss2ResponseCodeKind::NvSize),
        0x048 => Some(Tss2ResponseCodeKind::NvLocked),
        0x049 => Some(Tss2ResponseCodeKind::NvAuthorization),
        0x04A => Some(Tss2ResponseCodeKind::NvUninitialized),
        0x04B => Some(Tss2ResponseCodeKind::NvSpace),
        0x04C => Some(Tss2ResponseCodeKind::NvDefined),
        0x050 => Some(Tss2ResponseCodeKind::BadContext),
        0x051 => Some(Tss2ResponseCodeKind::CpHash),
        0x052 => Some(Tss2ResponseCodeKind::Parent),
        0x053 => Some(Tss2ResponseCodeKind::NeedsTest),
        0x054 => Some(Tss2ResponseCodeKind::NoResult),
        0x055 => Some(Tss2ResponseCodeKind::Sensitive),
        _ => None,
    }
}

/// The Format-One conditions, by error number.
pub open spec fn format_one_table(n: u32) -> Option<Tss2ResponseCodeKind> {
    match n {
        0x001 => Some(Tss2ResponseCodeKind::Asymmetric),
        0x002 => Some(Tss2ResponseCodeKind::Attributes),
        0x003 => Some(Tss2ResponseCodeKind::Hash),
        0x004 => Some(Tss2ResponseCodeKind::Value),
        0x005 => Some(Tss2ResponseCodeKind::Hierarchy),
        0x007 => Some(Tss2ResponseCodeKind::KeySize),
        0x008 => Some(Tss2ResponseCodeKind::Mgf),
        0x009 => Some(Tss2ResponseCodeKind::Mode),
        0x00A => Some(Tss2ResponseCodeKind::Type),
        0x00B => Some(Tss2ResponseCodeKind::Handle),
        0x00C => Some(Tss2ResponseCodeKind::Kdf),
        0x00D => Some(Tss2ResponseCodeKind::Range),
        0x00E => Some(Tss2ResponseCodeKind::AuthFail),
        0x00F => Some(Tss2ResponseCodeKind::Nonce),
        0x010 => Some(Tss2ResponseCodeKind::Pp),
        0x012 => Some(Tss2ResponseCodeKind::Scheme),
        0x015 => Some(Tss2ResponseCodeKind::Size),
        0x016 => Some(Tss2ResponseCodeKind::Symmetric),
        0x017 => Some(Tss2ResponseCodeKind::Tag),
        0x018 => Some(Tss2ResponseCodeKind::Selector),
        0x01A => Some(Tss2ResponseCodeKind::Insufficient),
        0x01B => Some(Tss2ResponseCodeKind::Signature),
        0x01C => Some(Tss2ResponseCodeKind::Key),
        0x01D => Some(Tss2ResponseCodeKind::PolicyFail),
        0x01F => Some(Tss2ResponseCodeKind::Integrity),
        0x020 => Some(Tss2ResponseCodeKind::Ticket),
        0x021 => Some(Tss2ResponseCodeKind::ReservedBits),
        0x022 => Some(Tss2ResponseCodeKind::BadAuth),
        0x023 => Some(Tss2ResponseCodeKind::Expired),
        0x024 => Some(Tss2ResponseCodeKind::PolicyCc),
        0x025 => Some(Tss2ResponseCodeKind::Binding),
        0x026 => Some(Tss2ResponseCodeKind::Curve),
        0x027 => Some(Tss2ResponseCodeKind::EccPoint),
        _ => None,
    }
}

impl Tss2ResponseCodeKind {
    /// The fixed sentence that describes the condition. A Format-One code
    /// appends the parameter, handle or session it concerns to it.
    pub open spec fn spec_description(self) -> Seq<char> {
        match self {
            Tss2ResponseCodeKind::Success => "success"@,
            Tss2ResponseCodeKind::TpmVendorSpecific => "vendor specific error"@,
            Tss2ResponseCodeKind::Initialize => "TPM not initialized by TPM2_Startup or already initialized"@,
            Tss2ResponseCodeKind::Failure => "commands not being accepted because of a TPM failure. NOTE: This may be returned by TPM2_GetTestResult() as the testResultparameter"@,
            Tss2ResponseCodeKind::Sequence => "improper use of a sequence handle"@,
            Tss2ResponseCodeKind::Private => "not currently used"@,
            Tss2ResponseCodeKind::Hmac => "not currently used"@,
            Tss2ResponseCodeKind::Disabled => "the command is disabled"@,
            Tss2ResponseCodeKind::Exclusive => "command failed because audit sequence required exclusivity"@,
            Tss2ResponseCodeKind::AuthType => "authorization handle is not correct for command"@,
            Tss2ResponseCodeKind::AuthMissing => "command requires an authorization session for handle and it is not present"@,
            Tss2ResponseCodeKind::Policy => "policy failure in math operation or an invalid authPolicy value"@,
            Tss2ResponseCodeKind::Pcr => "PCR check fail"@,
            Tss2ResponseCodeKind::PcrChanged => "PCR have changed since checked"@,
            Tss2ResponseCodeKind::Upgrade => "for all commands other than TPM2_FieldUpgradeData(), this code indicates that the TPM is in field upgrade mode; for TPM2_FieldUpgradeData(), this code indicates that the TPM is not in field upgrade mode"@,
            Tss2ResponseCodeKind::TooManyContexts => "context ID counter is at maximum"@,
            Tss2ResponseCodeKind::AuthUnavailable => "authValue or authPolicy is not available for selected entity"@,
            Tss2ResponseCodeKind::Reboot => "a _TPM_Init and Startup(CLEAR) is required before the TPM can resume operation"@,
            Tss2ResponseCodeKind::Unbalanced => "the protection algorithms (hash and symmetric) are not reasonably balanced. The digest size of the hash must be larger than the key size of the symmetric algorithm"@,
            Tss2ResponseCodeKind::CommandSize => "command commandSizevalue is inconsistent with contents of the command buffer; either the size is not the same as the octets loaded by the hardware interface layer or the value is not large enough to hold a command header"@,
            Tss2ResponseCodeKind::CommandCode => "command code not supported"@,
            Tss2ResponseCodeKind::AuthSize => "the value of authorizationSizeis out of range or the number of octets in the Authorization Area is greater than required"@,
            Tss2ResponseCodeKind::AuthContext => "use of an authorization session with a context command or another command that cannot have an authorization session"@,
            Tss2ResponseCodeKind::NvRange => "NV offset+size is out of range"@,
            Tss2ResponseCodeKind::NvSize => "Requested allocation size is larger than allowed"@,
            Tss2ResponseCodeKind::NvLocked => "NV access locked"@,
            Tss2ResponseCodeKind::NvAuthorization => "NV access authorization fails in command actions (this failure does not affect lockout.action)"@,
            Tss2ResponseCodeKind::NvUninitialized => "an NV Index is used before being initialized or the state saved by TPM2_Shutdown(STATE) could not be restored"@,
            Tss2ResponseCodeKind::NvSpace => "insufficient space for NV allocation"@,
            Tss2ResponseCodeKind::NvDefined => "NV Index or persistent object already defined"@,
            Tss2ResponseCodeKind::BadContext => "context in TPM2_ContextLoad() is not valid"@,
            Tss2ResponseCodeKind::CpHash => "cpHash value already set or not correct for use"@,
            Tss2ResponseCodeKind::Parent => "handle for parent is not a valid parent"@,
            Tss2ResponseCodeKind::NeedsTest => "some function needs testing."@,
            Tss2ResponseCodeKind::NoResult => "returned when an internal function cannot process a request due to an unspecified problem. This code is usually related to invalid parameters that are not properly filtered by the input unmarshaling code."@,
            Tss2ResponseCodeKind::Sensitive => "the sensitive area did not unmarshal correctly after decryption – this code is used in lieu of the other unmarshaling errors so that an attacker cannot determine where the unmarshaling error occurred"@,
            Tss2ResponseCodeKind::Asymmetric => "asymmetric algorithm not supported or not correct"@,
            Tss2ResponseCodeKind::Attributes => "inconsistent attributes"@,
            Tss2ResponseCodeKind::Hash => "hash algorithm not supported or not appropriate"@,
            Tss2ResponseCodeKind::Value => "value is out of range or is not correct for the context"@,
            Tss2ResponseCodeKind::Hierarchy => "hierarchy is not enabled or is not correct for the use"@,
            Tss2ResponseCodeKind::KeySize => "key size is not supported"@,
            Tss2ResponseCodeKind::Mgf => "mask generation function not supported"@,
            Tss2ResponseCodeKind::Mode => "mode of operation not supported"@,
            Tss2ResponseCodeKind::Type => "the type of the value is not appropriate for the use"@,
            Tss2ResponseCodeKind::Handle => "the handle is not correct for the use"@,
            Tss2ResponseCodeKind::Kdf => "unsupported key derivation function or function not appropriate for use"@,
            Tss2ResponseCodeKind::Range => "value was out of allowed range."@,
            Tss2ResponseCodeKind::AuthFail => "the authorization HMAC check failed and DA counter incremented"@,
            Tss2ResponseCodeKind::Nonce => "invalid nonce size or nonce value mismatch"@,
            Tss2ResponseCodeKind::Pp => "authorization requires assertion of PP"@,
            Tss2ResponseCodeKind::Scheme => "unsupported or incompatible scheme"@,
            Tss2ResponseCodeKind::Size => "structure is the wrong size"@,
            Tss2ResponseCodeKind::Symmetric => "unsupported symmetric algorithm or key size, or not appropriate for instance"@,
            Tss2ResponseCodeKind::Tag => "incorrect structure tag"@,
            Tss2ResponseCodeKind::Selector => "union selector is incorrect"@,
            Tss2ResponseCodeKind::Insufficient => "the TPM was unable to unmarshal a value because there were not enough octets in the input buffer"@,
            Tss2ResponseCodeKind::Signature => "the signature is not valid"@,
            Tss2ResponseCodeKind::Key => "key fields are not compatible with the selected use"@,
            Tss2ResponseCodeKind::PolicyFail => "a policy check failed"@,
            Tss2ResponseCodeKind::Integrity => "integrity check failed"@,
            Tss2ResponseCodeKind::Ticket => "invalid ticket "@,
            Tss2ResponseCodeKind::ReservedBits => "reserved bits not set to zero as required"@,
            Tss2ResponseCodeKind::BadAuth => "authorization failure without DA implications"@,
            Tss2ResponseCodeKind::Expired => "the policy has expired"@,
            Tss2ResponseCodeKind::PolicyCc => "the command Code in the policy is not the command Code of the command or the command code in a policy command references a command that is not implemented"@,
            Tss2ResponseCodeKind::Binding => "public and sensitive portions of an object are not cryptographically bound"@,
            Tss2ResponseCodeKind::Curve => "curve not supported"@,
            Tss2ResponseCodeKind::EccPoint => "point is not on the required curve"@,
            Tss2ResponseCodeKind::ContextGap => "gap for context ID is too large"@,
            Tss2ResponseCodeKind::ObjectMemory => "out of memory for object contexts"@,
            Tss2ResponseCodeKind::SessionMemory => "out of memory for session contexts"@,
            Tss2ResponseCodeKind::Memory => "out of shared object/session memory or need space for internal operations"@,
            Tss2ResponseCodeKind::SessionHandles => "out of session handles – a session must be flushed before a new session may be created"@,
            Tss2ResponseCodeKind::ObjectHandles => "out of object handles – the handle space for objects is depleted and a reboot is required. NOTE 1: This cannot occur on the reference implementation. NOTE 2: There is no reason why an implementation would implement a design that would delete handle space. Platform specifications are encouraged to forbid it."@,
            Tss2ResponseCodeKind::Locality => "bad locality"@,
            Tss2ResponseCodeKind::Yielded => "the TPM has suspended operation on the command; forward progress was made and the command may be retried. See TPM 2.0 Part 1, “Multi-tasking.” NOTE: This cannot occur on the reference implementation."@,
            Tss2ResponseCodeKind::Canceled => "the command was canceled"@,
            Tss2ResponseCodeKind::Testing => "TPM is performing self-tests"@,
            Tss2ResponseCodeKind::ReferenceH0 => "the 1st handle in the handle area references a transient object or session that is not loaded"@,
            Tss2ResponseCodeKind::ReferenceH1 => "the 2nd handle in the handle area references a transient object or session that is not loaded"@,
            Tss2ResponseCodeKind::ReferenceH2 => "the 3rd handle in the handle area references a transient object or session that is not loaded"@,
            Tss2ResponseCodeKind::ReferenceH3 => "the 4th handle in the handle area references a transient object or session that is not loaded"@,
            Tss2ResponseCodeKind::ReferenceH4 => "the 5th handle in the handle area references a transient object or session that is not loaded"@,
            Tss2ResponseCodeKind::ReferenceH5 => "the 6th handle in the handle area references a transient object or session that is not loaded"@,
            Tss2ResponseCodeKind::ReferenceH6 => "the 7th handle in the handle area references a transient object or session that is not loaded"@,
            Tss2ResponseCodeKind::ReferenceS0 => "the 1st authorization session handle references a session that is not loaded"@,
            Tss2ResponseCodeKind::ReferenceS1 => "the 2nd authorization session handle references a session that is not loaded"@,
            Tss2ResponseCodeKind::ReferenceS2 => "the 3rd authorization session handle references a session that is not loaded"@,
            Tss2ResponseCodeKind::ReferenceS3 => "the 4th authorization session handle references a session that is not loaded"@,
            Tss2ResponseCodeKind::ReferenceS4 => "the 5th session handle references a session that is not loaded"@,
            Tss2ResponseCodeKind::ReferenceS5 => "the 6th session handle references a session that is not loaded"@,
            Tss2ResponseCodeKind::ReferenceS6 => "the 7th authorization session handle references a session that is not loaded"@,
            Tss2ResponseCodeKind::NvRate => "the TPM is rate-limiting accesses to prevent wearout of NV"@,
            Tss2ResponseCodeKind::Lockout => "authorizations for objects subject to DA protection are not allowed at this time because the TPM is in DA lockout mode"@,
            Tss2ResponseCodeKind::Retry => "the TPM was not able to start the command"@,
            Tss2ResponseCodeKind::NvUnavailable => "the command may require writing of NV and NV is not current accessible"@,
        }
    }

    /// The fixed sentence that describes the condition.
    pub fn description(self) -> (r: &'static str)
        ensures
            r@ == self.spec_description(),
    {
        match self {
            Tss2ResponseCodeKind::Success => "success",
            Tss2ResponseCodeKind::TpmVendorSpecific => "vendor specific error",
            Tss2ResponseCodeKind::Initialize => "TPM not initialized by TPM2_Startup or already initialized",
            Tss2ResponseCodeKind::Failure => "commands not being accepted because of a TPM failure. NOTE: This may be returned by TPM2_GetTestResult() as the testResultparameter",
            Tss2ResponseCodeKind::Sequence => "improper use of a sequence handle",
            Tss2ResponseCodeKind::Private => "not currently used",
            Tss2ResponseCodeKind::Hmac => "not currently used",
            Tss2ResponseCodeKind::Disabled => "the command is disabled",
            Tss2ResponseCodeKind::Exclusive => "command failed because audit sequence required exclusivity",
            Tss2ResponseCodeKind::AuthType => "authorization handle is not correct for command",
            Tss2ResponseCodeKind::AuthMissing => "command requires an authorization session for handle and it is not present",
            Tss2ResponseCodeKind::Policy => "policy failure in math operation or an invalid authPolicy value",
            Tss2ResponseCodeKind::Pcr => "PCR check fail",
            Tss2ResponseCodeKind::PcrChanged => "PCR have changed since checked",
            Tss2ResponseCodeKind::Upgrade => "for all commands other than TPM2_FieldUpgradeData(), this code indicates that the TPM is in field upgrade mode; for TPM2_FieldUpgradeData(), this code indicates that the TPM is not in field upgrade mode",
            Tss2ResponseCodeKind::TooManyContexts => "context ID counter is at maximum",
            Tss2ResponseCodeKind::AuthUnavailable => "authValue or authPolicy is not available for selected entity",
            Tss2ResponseCodeKind::Reboot => "a _TPM_Init and Startup(CLEAR) is required before the TPM can resume operation",
            Tss2ResponseCodeKind::Unbalanced => "the protection algorithms (hash and symmetric) are not reasonably balanced. The digest size of the hash must be larger than the key size of the symmetric algorithm",
            Tss2ResponseCodeKind::CommandSize => "command commandSizevalue is inconsistent with contents of the command buffer; either the size is not the same as the octets loaded by the hardware interface layer or the value is not large enough to hold a command header",
            Tss2ResponseCodeKind::CommandCode => "command code not supported",
            Tss2ResponseCodeKind::AuthSize => "the value of authorizationSizeis out of range or the number of octets in the Authorization Area is greater than required",
            Tss2ResponseCodeKind::AuthContext => "use of an authorization session with a context command or another command that cannot have an authorization session",
            Tss2ResponseCodeKind::NvRange => "NV offset+size is out of range",
            Tss2ResponseCodeKind::NvSize => "Requested allocation size is larger than allowed",
            Tss2ResponseCodeKind::NvLocked => "NV access locked",
            Tss2ResponseCodeKind::NvAuthorization => "NV access authorization fails in command actions (this failure does not affect lockout.action)",
            Tss2ResponseCodeKind::NvUninitialized => "an NV Index is used before being initialized or the state saved by TPM2_Shutdown(STATE) could not be restored",
            Tss2ResponseCodeKind::NvSpace => "insufficient space for NV allocation",
            Tss2ResponseCodeKind::NvDefined => "NV Index or persistent object already defined",
            Tss2ResponseCodeKind::BadContext => "context in TPM2_ContextLoad() is not valid",
            Tss2ResponseCodeKind::CpHash => "cpHash value already set or not correct for use",
            Tss2ResponseCodeKind::Parent => "handle for parent is not a valid parent",
            Tss2ResponseCodeKind::NeedsTest => "some function needs testing.",
            Tss2ResponseCodeKind::NoResult => "returned when an internal function cannot process a request due to an unspecified problem. This code is usually related to invalid parameters that are not properly filtered by the input unmarshaling code.",
            Tss2ResponseCodeKind::Sensitive => "the sensitive area did not unmarshal correctly after decryption – this code is used in lieu of the other unmarshaling errors so that an attacker cannot determine where the unmarshaling error occurred",
            Tss2ResponseCodeKind::Asymmetric => "asymmetric algorithm not supported or not correct",
            Tss2ResponseCodeKind::Attributes => "inconsistent attributes",
            Tss2ResponseCodeKind::Hash => "hash algorithm not supported or not appropriate",
            Tss2ResponseCodeKind::Value => "value is out of range or is not correct for the context",
            Tss2ResponseCodeKind::Hierarchy => "hierarchy is not enabled or is not correct for the use",
            Tss2ResponseCodeKind::KeySize => "key size is not supported",
            Tss2ResponseCodeKind::Mgf => "mask generation function not supported",
            Tss2ResponseCodeKind::Mode => "mode of operation not supported",
            Tss2ResponseCodeKind::Type => "the type of the value is not appropriate for the use",
            Tss2ResponseCodeKind::Handle => "the handle is not correct for the use",
            Tss2ResponseCodeKind::Kdf => "unsupported key derivation function or function not appropriate for use",
            Tss2ResponseCodeKind::Range => "value was out of allowed range.",
            Tss2ResponseCodeKind::AuthFail => "the authorization HMAC check failed and DA counter incremented",
            Tss2ResponseCodeKind::Nonce => "invalid nonce size or nonce value mismatch",
            Tss2ResponseCodeKind::Pp => "authorization requires assertion of PP",
            Tss2ResponseCodeKind::Scheme => "unsupported or incompatible scheme",
            Tss2ResponseCodeKind::Size => "structure is the wrong size",
            Tss2ResponseCodeKind::Symmetric => "unsupported symmetric algorithm or key size, or not appropriate for instance",
            Tss2ResponseCodeKind::Tag => "incorrect structure tag",
            Tss2ResponseCodeKind::Selector => "union selector is incorrect",
            Tss2ResponseCodeKind::Insufficient => "the TPM was unable to unmarshal a value because there were not enough octets in the input buffer",
            Tss2ResponseCodeKind::Signature => "the signature is not valid",
            Tss2ResponseCodeKind::Key => "key fields are not compatible with the selected use",
            Tss2ResponseCodeKind::PolicyFail => "a policy check failed",
            Tss2ResponseCodeKind::Integrity => "integrity check failed",
            Tss2ResponseCodeKind::Ticket => "invalid ticket ",
            Tss2ResponseCodeKind::ReservedBits => "reserved bits not set to zero as required",
            Tss2ResponseCodeKind::BadAuth => "authorization failure without DA implications",
            Tss2ResponseCodeKind::Expired => "the policy has expired",
            Tss2ResponseCodeKind::PolicyCc => "the command Code in the policy is not the command Code of the command or the command code in a policy command references a command that is not implemented",
            Tss2ResponseCodeKind::Binding => "public and sensitive portions of an object are not cryptographically bound",
            Tss2ResponseCodeKind::Curve => "curve not supported",
            Tss2ResponseCodeKind::EccPoint => "point is not on the required curve",
            Tss2ResponseCodeKind::ContextGap => "gap for context ID is too large",
            Tss2ResponseCodeKind::ObjectMemory => "out of memory for object contexts",
            Tss2ResponseCodeKind::SessionMemory => "out of memory for session contexts",
            Tss2ResponseCodeKind::Memory => "out of shared object/session memory or need space for internal operations",
            Tss2ResponseCodeKind::SessionHandles => "out of session handles – a session must be flushed before a new session may be created",
            Tss2ResponseCodeKind::ObjectHandles => "out of object handles – the handle space for objects is depleted and a reboot is required. NOTE 1: This cannot occur on the reference implementation. NOTE 2: There is no reason why an implementation would implement a design that would delete handle space. Platform specifications are encouraged to forbid it.",
            Tss2ResponseCodeKind::Locality => "bad locality",
            Tss2ResponseCodeKind::Yielded => "the TPM has suspended operation on the command; forward progress was made and the command may be retried. See TPM 2.0 Part 1, “Multi-tasking.” NOTE: This cannot occur on the reference implementation.",
            Tss2ResponseCodeKind::Canceled => "the command was canceled",
            Tss2ResponseCodeKind::Testing => "TPM is performing self-tests",
            Tss2ResponseCodeKind::ReferenceH0 => "the 1st handle in the handle area references a transient object or session that is not loaded",
            Tss2ResponseCodeKind::ReferenceH1 => "the 2nd handle in the handle area references a transient object or session that is not loaded",
            Tss2ResponseCodeKind::ReferenceH2 => "the 3rd handle in the handle area references a transient object or session that is not loaded",
            Tss2ResponseCodeKind::ReferenceH3 => "the 4th handle in the handle area references a transient object or session that is not loaded",
            Tss2ResponseCodeKind::ReferenceH4 => "the 5th handle in the handle area references a transient object or session that is not loaded",
            Tss2ResponseCodeKind::ReferenceH5 => "the 6th handle in the handle area references a transient object or session that is not loaded",
            Tss2ResponseCodeKind::ReferenceH6 => "the 7th handle in the handle area references a transient object or session that is not loaded",
            Tss2ResponseCodeKind::ReferenceS0 => "the 1st authorization session handle references a session that is not loaded",
            Tss2ResponseCodeKind::ReferenceS1 => "the 2nd authorization session handle references a session that is not loaded",
            Tss2ResponseCodeKind::ReferenceS2 => "the 3rd authorization session handle references a session that is not loaded",
            Tss2ResponseCodeKind::ReferenceS3 => "the 4th authorization session handle references a session that is not loaded",
            Tss2ResponseCodeKind::ReferenceS4 => "the 5th session handle references a session that is not loaded",
            Tss2ResponseCodeKind::ReferenceS5 => "the 6th session handle references a session that is not loaded",
            Tss2ResponseCodeKind::ReferenceS6 => "the 7th authorization session handle references a session that is not loaded",
            Tss2ResponseCodeKind::NvRate => "the TPM is rate-limiting accesses to prevent wearout of NV",
            Tss2ResponseCodeKind::Lockout => "authorizations for objects subject to DA protection are not allowed at this time because the TPM is in DA lockout mode",
            Tss2ResponseCodeKind::Retry => "the TPM was not able to start the command",
            Tss2ResponseCodeKind::NvUnavailable => "the command may require writing of NV and NV is not current accessible",
        }
    }
}

} // verus!
