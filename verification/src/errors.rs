use vstd::prelude::*;

verus! {

/// The error surface of the capture core. The three start-side kinds carry
/// the platform's own description of what failed; `NoData` is the one
/// recoverable kind (a new session may be started); `EncodeFailure` is fatal
/// to the stop call that produced it only.
#[derive(Debug)]
pub enum Error {
    /// Enumerator or endpoint lookup failed: the session never begins.
    DeviceAcquisitionFailure(String),
    /// Format negotiation or client initialization failed: fatal to start.
    StreamInitFailure(String),
    /// The hardware stream failed to begin: fatal to start.
    StreamStartFailure(String),
    /// Stop was called while the sample buffer was empty.
    NoData,
    /// The container could not be constructed or finalized.
    EncodeFailure(String),
}

impl Error {
    /// The human-readable text of this error, suitable for direct display.
    pub open spec fn message_spec(&self) -> Seq<char> {
        match self {
            Error::DeviceAcquisitionFailure(m) => m@,
            Error::StreamInitFailure(m) => m@,
            Error::StreamStartFailure(m) => m@,
            Error::NoData => "No audio samples captured"@,
            Error::EncodeFailure(m) => m@,
        }
    }

    pub fn message(&self) -> (r: String)
        ensures
            r@ == self.message_spec(),
    {
        match self {
            Error::DeviceAcquisitionFailure(m) => m.clone(),
            Error::StreamInitFailure(m) => m.clone(),
            Error::StreamStartFailure(m) => m.clone(),
            Error::NoData => "No audio samples captured".to_owned(),
            Error::EncodeFailure(m) => m.clone(),
        }
    }

    /// True exactly on the recoverable empty-buffer error.
    pub fn is_no_data(&self) -> (r: bool)
        ensures
            r == (self is NoData),
    {
        match self {
            Error::NoData => true,
            _ => false,
        }
    }
}

} // verus!
