//! The failures a session operation can end in.
//!
//! Every failure belongs to one of five kinds and carries, untouched, the
//! error of the layer below it, or names the rule of this library that the
//! remote side broke.

use arrow_flight::error::FlightError;
use parquet::errors::ParquetError;
use vstd::prelude::*;

verus! {

/// `tonic::transport::Error`, carried as an opaque value.
#[verifier::external_type_specification]
#[verifier::external_body]
pub struct ExChannelError(tonic::transport::Error);

/// `arrow_flight::error::FlightError`, carried as an opaque value.
#[verifier::external_type_specification]
#[verifier::external_body]
pub struct ExFlightError(FlightError);

/// `std::io::Error`, carried as an opaque value.
#[verifier::external_type_specification]
#[verifier::external_body]
pub struct ExIoError(std::io::Error);

/// `parquet::errors::ParquetError`, carried as an opaque value.
#[verifier::external_type_specification]
#[verifier::external_body]
pub struct ExParquetError(ParquetError);

/// Which variant of `FlightError` a value is.
#[derive(Clone, Copy, Debug, PartialEq, Eq, Structural)]
pub enum FlightFault {
    /// `FlightError::Arrow`
    Arrow,
    /// `FlightError::NotYetImplemented`
    NotYetImplemented,
    /// `FlightError::Tonic`
    Tonic,
    /// `FlightError::ProtocolError`
    Protocol,
    /// `FlightError::DecodeError`
    Decode,
    /// `FlightError::ExternalError`
    External,
}

/// The variant of a `FlightError`.
pub uninterp spec fn flight_fault(e: FlightError) -> FlightFault;

/// Tells the variants of `arrow_flight::error::FlightError` apart, one arm
/// for each. The contract claims that the answer is the variant of the value.
#[verifier::external_body]
fn fault_of(e: &FlightError) -> (fault: FlightFault)
    ensures
        fault == flight_fault(*e),
{
    match e {
        FlightError::Arrow(_) => FlightFault::Arrow,
        FlightError::NotYetImplemented(_) => FlightFault::NotYetImplemented,
        FlightError::Tonic(_) => FlightFault::Tonic,
        FlightError::ProtocolError(_) => FlightFault::Protocol,
        FlightError::DecodeError(_) => FlightFault::Decode,
        FlightError::ExternalError(_) => FlightFault::External,
    }
}

impl FlightFault {
    /// A fault of the network rather than of the data that came over it.
    pub open spec fn spec_is_transport(self) -> bool {
        self == FlightFault::Tonic || self == FlightFault::External
    }

    /// Whether the fault lies with the network (a status of the remote call,
    /// an error handed up from below) rather than with the columnar data.
    #[verifier::when_used_as_spec(spec_is_transport)]
    pub fn is_transport(self) -> (r: bool)
        ensures
            r == self.spec_is_transport(),
    {
        match self {
            FlightFault::Tonic => true,
            FlightFault::External => true,
            FlightFault::Arrow => false,
            FlightFault::NotYetImplemented => false,
            FlightFault::Protocol => false,
            FlightFault::Decode => false,
        }
    }
}

/// What lies beneath a `Transport` failure.
#[derive(Debug)]
pub enum TransportCause {
    /// The address was malformed or the channel could not be opened.
    Channel(tonic::transport::Error),
    /// The handshake, the opening of a stream, or a frame of it failed.
    Flight(FlightError),
}

/// What lies beneath a `Decode` failure.
#[derive(Debug)]
pub enum DecodeCause {
    /// The stream's decoder refused what arrived.
    Flight(FlightError),
    /// The batch at `position` (counted from zero) does not have the schema
    /// of the first batch of its stream.
    SchemaDrift { position: usize },
}

/// What lies beneath a `RemoteRejection`.
#[derive(Debug)]
pub enum RejectionCause {
    /// The server refused the statement.
    Flight(FlightError),
    /// The server accepted the statement and named no endpoint.
    NoEndpoint,
    /// The first endpoint carries no ticket.
    MissingTicket,
}

/// What lies beneath an `Encode` failure.
#[derive(Debug)]
pub enum EncodeCause {
    /// The columnar file encoder failed.
    Parquet(ParquetError),
    /// There is no batch to take the file's schema from.
    EmptyResult,
}

/// The closed set of failures of this library.
#[derive(Debug)]
pub enum DremioClientError {
    /// Connecting, the handshake, or the network under a stream failed.
    Transport(TransportCause),
    /// Malformed columnar data on the wire.
    Decode(DecodeCause),
    /// The server refused the query, or its answer cannot be followed.
    RemoteRejection(RejectionCause),
    /// The local file could not be opened, written or flushed.
    FileIo(std::io::Error),
    /// The result could not be encoded as a columnar file.
    Encode(EncodeCause),
}

/// A frame of a result stream that failed: the error, with the fault that it
/// is. The fault is always the one read off the error.
#[derive(Debug)]
pub struct StreamFailure {
    fault: FlightFault,
    error: FlightError,
}

impl StreamFailure {
    #[verifier::type_invariant]
    spec fn labelled(self) -> bool {
        self.fault == flight_fault(self.error)
    }

    /// The error of the frame.
    pub closed spec fn cause(self) -> FlightError {
        self.error
    }

    /// The failure that the frame stands for: a `Transport` failure where the
    /// fault of its error lies with the network, a `Decode` failure
    /// otherwise; in both the frame's error is the cause.
    pub open spec fn verdict(self) -> DremioClientError {
        if flight_fault(self.cause()).is_transport() {
            DremioClientError::Transport(TransportCause::Flight(self.cause()))
        } else {
            DremioClientError::Decode(DecodeCause::Flight(self.cause()))
        }
    }

    /// The failed frame for an error of the stream.
    pub fn of(error: FlightError) -> (failure: StreamFailure)
        ensures
            failure.cause() == error,
    {
        let fault = fault_of(&error);
        StreamFailure { fault, error }
    }

    /// The fault that the error is.
    pub fn fault(&self) -> (fault: FlightFault)
        ensures
            fault == flight_fault(self.cause()),
    {
        proof {
            use_type_invariant(self);
        }
        self.fault
    }

    /// The error of the frame.
    pub fn error(&self) -> (error: &FlightError)
        ensures
            *error == self.cause(),
    {
        &self.error
    }

    /// The failure that the frame stands for.
    pub fn into_error(self) -> (r: DremioClientError)
        ensures
            r == self.verdict(),
            r is Transport || r is Decode,
    {
        proof {
            use_type_invariant(&self);
        }
        if self.fault.is_transport() {
            DremioClientError::Transport(TransportCause::Flight(self.error))
        } else {
            DremioClientError::Decode(DecodeCause::Flight(self.error))
        }
    }
}

/// The `std::io::Error` that a `ParquetError` wraps, where it is the variant
/// `External` around one.
pub uninterp spec fn io_inside(e: ParquetError) -> Option<std::io::Error>;

/// `ParquetError::External` around a `std::io::Error`, told apart from every
/// other error of the encoder with `downcast` on the boxed source. The
/// contract claims that the `std::io::Error` that comes out is the one
/// inside, and that every other error comes back as it went in.
#[verifier::external_body]
fn io_cause(e: ParquetError) -> (r: Result<std::io::Error, ParquetError>)
    ensures
        r == match io_inside(e) {
            Some(io) => Ok(io),
            None => Err(e),
        },
{
    match e {
        ParquetError::External(source) => match source.downcast::<std::io::Error>() {
            Ok(io) => Ok(*io),
            Err(source) => Err(ParquetError::External(source)),
        },
        other => Err(other),
    }
}

/// A step of the file's encoder that failed, by where the fault lies.
#[derive(Debug)]
pub enum WriteFailure {
    /// The file beneath the encoder could not be written or flushed.
    File(std::io::Error),
    /// The encoder refused the data or its schema.
    Encoder(ParquetError),
}

impl WriteFailure {
    /// The failure that the step stands for: a `FileIo` failure where the
    /// fault lies with the file, an `Encode` failure otherwise.
    pub open spec fn verdict(self) -> DremioClientError {
        match self {
            WriteFailure::File(e) => DremioClientError::FileIo(e),
            WriteFailure::Encoder(e) => DremioClientError::Encode(EncodeCause::Parquet(e)),
        }
    }

    /// The failed step that an error of the encoder is: a fault of the file,
    /// with the `std::io::Error` inside, where the error wraps one; a fault
    /// of the encoder, with the error as it came, otherwise.
    pub open spec fn told(error: ParquetError) -> WriteFailure {
        match io_inside(error) {
            Some(io) => WriteFailure::File(io),
            None => WriteFailure::Encoder(error),
        }
    }

    /// The failed step for an error of the encoder.
    pub fn of(error: ParquetError) -> (failure: WriteFailure)
        ensures
            failure == Self::told(error),
    {
        match io_cause(error) {
            Ok(io) => WriteFailure::File(io),
            Err(e) => WriteFailure::Encoder(e),
        }
    }

    /// The failure that the step stands for.
    pub fn into_error(self) -> (r: DremioClientError)
        ensures
            r == self.verdict(),
            r is FileIo || r is Encode,
    {
        match self {
            WriteFailure::File(e) => DremioClientError::FileIo(e),
            WriteFailure::Encoder(e) => DremioClientError::Encode(EncodeCause::Parquet(e)),
        }
    }
}

} // verus!
