//! Errors of the interface, and the answers of the transport that some of them come from.

use vstd::prelude::*;

verus! {

/// A failure of the transport, kept as the transport reported it.
#[derive(Clone, Copy, Debug, PartialEq, Eq)]
pub struct DeviceError {
    /// The transport's own status code.
    pub code: i32,
}

/// Errors returned by the interface.
#[derive(Clone, Copy, Debug, PartialEq, Eq)]
pub enum Error {
    /// The transport failed while talking to the adapter.
    DeviceError(DeviceError),
    /// No adapter was found, or it could not be opened.
    DeviceNotFound,
    /// The adapter did not answer in time.
    Timeout,
    /// The operation is only allowed while the interface is stopped.
    Running,
    /// The operation is only allowed while the interface is running.
    NotRunning,
    /// The adapter has no channel with the requested index.
    InvalidChannel,
    /// No bit timing comes close enough to the requested bitrate.
    InvalidBitrate(u32),
    /// The adapter lacks the named feature.
    UnsupportedFeature(&'static str),
}

impl From<DeviceError> for Error {
    fn from(e: DeviceError) -> (err: Error) {
        Error::DeviceError(e)
    }
}

impl vstd::std_specs::convert::FromSpecImpl<DeviceError> for Error {
    open spec fn obeys_from_spec() -> bool {
        true
    }

    open spec fn from_spec(e: DeviceError) -> Error {
        Error::DeviceError(e)
    }
}

/// How the transport answered one command.
#[derive(Clone, Copy, Debug, PartialEq, Eq)]
pub enum Outcome {
    /// The command was carried out.
    Done,
    /// The adapter did not answer before the transport's deadline.
    TimedOut,
    /// The transport failed.
    Failed(DeviceError),
}

impl Outcome {
    /// The result that an answer of the transport stands for.
    pub open spec fn spec_into_result(self) -> Result<(), Error> {
        match self {
            Outcome::Done => Ok(()),
            Outcome::TimedOut => Err(Error::Timeout),
            Outcome::Failed(e) => Err(Error::DeviceError(e)),
        }
    }

    /// Turns the transport's answer into the result of the operation that asked for
    /// the command: a missed deadline is `Timeout`, any other failure is wrapped as
    /// `DeviceError`.
    pub fn into_result(self) -> (res: Result<(), Error>)
        ensures
            res == self.spec_into_result(),
    {
        match self {
            Outcome::Done => Ok(()),
            Outcome::TimedOut => Err(Error::Timeout),
            Outcome::Failed(e) => Err(Error::from(e)),
        }
    }
}

} // verus!
