//! The error type that joins failures reported by the TPM with those found
//! before a command is sent.
use vstd::prelude::*;
use crate::response_code::{decode, Tss2ResponseCode};

verus! {

/// The result of an operation that can fail with an [`Error`].
pub type Result<T> = std::result::Result<T, Error>;

/// A failure found before a command is sent.
#[derive(PartialEq, Eq, Structural, Copy, Clone, Debug)]
pub enum WrapperErrorKind {
    WrongParamSize,
    ParamsMissing,
    InconsistentParams,
}

/// A failure reported by the TPM or found locally.
#[derive(PartialEq, Eq, Structural, Copy, Clone, Debug)]
pub enum Error {
    WrapperError(WrapperErrorKind),
    Tss2Error(Tss2ResponseCode),
}

impl WrapperErrorKind {
    /// The sentence that describes the failure.
    pub open spec fn spec_message(self) -> Seq<char> {
        match self {
            WrapperErrorKind::WrongParamSize => "parameter provided is of the wrong size"@,
            WrapperErrorKind::ParamsMissing => "some of the required parameters were not provided"@,
            WrapperErrorKind::InconsistentParams => "the provided parameters have inconsistent values or variants"@,
        }
    }

    /// The sentence that describes the failure.
    pub fn message(self) -> (r: String)
        ensures
            r@ == self.spec_message(),
    {
        match self {
            WrapperErrorKind::WrongParamSize => String::from_str("parameter provided is of the wrong size"),
            WrapperErrorKind::ParamsMissing => String::from_str("some of the required parameters were not provided"),
            WrapperErrorKind::InconsistentParams => String::from_str("the provided parameters have inconsistent values or variants"),
        }
    }
}

impl Error {
    /// Whether the error is a response code that reports success.
    pub open spec fn spec_is_success(self) -> bool {
        self matches Error::Tss2Error(rc) && rc is Success
    }

    /// The message of the error: that of the wrapped response code or local
    /// failure.
    pub open spec fn spec_message(self) -> Seq<char> {
        match self {
            Error::WrapperError(e) => e.spec_message(),
            Error::Tss2Error(e) => e.spec_message(),
        }
    }

    /// The error for a raw response code.
    pub fn from_tss_rc(rc: u32) -> (r: Self)
        ensures
            r == Error::Tss2Error(decode(rc)),
    {
        Error::Tss2Error(Tss2ResponseCode::from_tss_rc(rc))
    }

    /// The error for a failure found locally.
    pub fn local_error(kind: WrapperErrorKind) -> (r: Self)
        ensures
            r == Error::WrapperError(kind),
    {
        Error::WrapperError(kind)
    }

    /// Whether the error is a response code that reports success; a local
    /// failure never is.
    pub fn is_success(self) -> (r: bool)
        ensures
            r == self.spec_is_success(),
    {
        if let Error::Tss2Error(tss2_rc) = self {
            tss2_rc.is_success()
        } else {
            false
        }
    }

    /// The human-readable message of the error.
    pub fn message(self) -> (r: String)
        ensures
            r@ == self.spec_message(),
    {
        match self {
            Error::WrapperError(e) => e.message(),
            Error::Tss2Error(e) => e.message(),
        }
    }
}

} // verus!
