use vstd::prelude::*;

verus! {

/// The class of a job failure.
#[derive(Clone, Copy, Debug, PartialEq, Eq, Structural)]
pub enum ErrorKind {
    Configuration,
    Io,
    Decode,
    Encode,
    Mux,
    Parameter,
}

/// Why a job failed.
#[derive(Clone, Copy, Debug, PartialEq, Eq, Structural)]
pub enum JobError {
    /// No task of the given name exists.
    UnknownTask,
    /// A required job parameter is absent.
    MissingParameter,
    /// A job parameter is present but out of range or malformed.
    InvalidParameter,
    /// A bitrate string is not a number with an optional `k` or `M` suffix.
    InvalidBitrate,
    /// The list of input sources is empty.
    EmptyInputList,
    /// The input has no stream of the requested kind.
    StreamNotFound,
    /// No codec or format could be set up for the stream.
    UnsupportedCodec,
    /// The requested geometry cannot be produced from the source.
    InvalidGeometry,
    /// A container could not be opened or created.
    OpenFailed,
    /// The input bitstream is malformed.
    DecodeFailed,
    /// The encoder rejected a frame or format.
    EncodeFailed,
    /// Header, packet and trailer writes came out of order.
    MuxSequence,
    /// A packet's timestamp went backwards on its stream.
    TimestampOrder,
    /// An event arrived that does not answer the pending action.
    UnexpectedEvent,
}

pub open spec fn kind_of(e: JobError) -> ErrorKind {
    match e {
        JobError::UnknownTask => ErrorKind::Parameter,
        JobError::MissingParameter => ErrorKind::Parameter,
        JobError::InvalidParameter => ErrorKind::Parameter,
        JobError::InvalidBitrate => ErrorKind::Parameter,
        JobError::EmptyInputList => ErrorKind::Parameter,
        JobError::StreamNotFound => ErrorKind::Configuration,
        JobError::UnsupportedCodec => ErrorKind::Configuration,
        JobError::InvalidGeometry => ErrorKind::Configuration,
        JobError::OpenFailed => ErrorKind::Io,
        JobError::DecodeFailed => ErrorKind::Decode,
        JobError::EncodeFailed => ErrorKind::Encode,
        JobError::MuxSequence => ErrorKind::Mux,
        JobError::TimestampOrder => ErrorKind::Mux,
        JobError::UnexpectedEvent => ErrorKind::Mux,
    }
}

impl JobError {
    /// The class that this failure belongs to.
    pub fn kind(&self) -> (r: ErrorKind)
        ensures
            r == kind_of(*self),
    {
        match self {
            JobError::UnknownTask => ErrorKind::Parameter,
            JobError::MissingParameter => ErrorKind::Parameter,
            JobError::InvalidParameter => ErrorKind::Parameter,
            JobError::InvalidBitrate => ErrorKind::Parameter,
            JobError::EmptyInputList => ErrorKind::Parameter,
            JobError::StreamNotFound => ErrorKind::Configuration,
            JobError::UnsupportedCodec => ErrorKind::Configuration,
            JobError::InvalidGeometry => ErrorKind::Configuration,
            JobError::OpenFailed => ErrorKind::Io,
            JobError::DecodeFailed => ErrorKind::Decode,
            JobError::EncodeFailed => ErrorKind::Encode,
            JobError::MuxSequence => ErrorKind::Mux,
            JobError::TimestampOrder => ErrorKind::Mux,
            JobError::UnexpectedEvent => ErrorKind::Mux,
        }
    }
}

} // verus!
