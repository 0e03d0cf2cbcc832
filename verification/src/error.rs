use vstd::prelude::*;

verus! {

/// The error taxonomy of the media asset core.
///
/// `NotFound` marks an absent uuid or storage key, `DecodeError` marks
/// malformed or unsupported image data, `BackendError` marks a storage
/// I/O failure, and `ConfigError` marks an invalid backend configuration
/// at startup.
#[derive(Clone, Copy, Debug, PartialEq, Eq, Structural)]
pub enum ImagioError {
    NotFound,
    DecodeError,
    BackendError,
    ConfigError,
}

pub open spec fn spec_error_message(e: ImagioError) -> Seq<char> {
    match e {
        ImagioError::NotFound => "not found"@,
        ImagioError::DecodeError => "decode error"@,
        ImagioError::BackendError => "backend error"@,
        ImagioError::ConfigError => "config error"@,
    }
}

impl ImagioError {
    /// A short human-readable description of the error.
    pub fn message(&self) -> (m: &'static str)
        ensures
            m@ == spec_error_message(*self),
    {
        match self {
            ImagioError::NotFound => "not found",
            ImagioError::DecodeError => "decode error",
            ImagioError::BackendError => "backend error",
            ImagioError::ConfigError => "config error",
        }
    }
}

} // verus!
