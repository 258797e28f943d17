//! The session: one authenticated channel to the coordinator.
//!
//! A `Client` exists only once the handshake has succeeded. What comes before
//! it (the address, the channel, the handshake) is decided here step by step;
//! the network round-trips themselves belong to the caller.

use crate::error::{DremioClientError, TransportCause};
use arrow_flight::error::FlightError;
use arrow_flight::sql::client::FlightSqlServiceClient;
use tonic::transport::{Channel, Endpoint};
use vstd::prelude::*;

verus! {

/// `tonic::transport::Endpoint`, carried as an opaque value.
#[verifier::external_type_specification]
#[verifier::external_body]
pub struct ExEndpoint(Endpoint);

/// `tonic::transport::Channel`, carried as an opaque value.
#[verifier::external_type_specification]
#[verifier::external_body]
pub struct ExChannel(Channel);

/// `arrow_flight::sql::client::FlightSqlServiceClient`, carried as an opaque
/// value.
#[verifier::external_type_specification]
#[verifier::external_body]
#[verifier::reject_recursive_types(T)]
pub struct ExFlightSqlServiceClient<T>(FlightSqlServiceClient<T>);

/// The endpoint that `tonic` makes of the text, where it takes the text as
/// an address.
pub uninterp spec fn endpoint_named(url: Seq<char>) -> Option<Endpoint>;

/// Whether `tonic` takes the text as the address of an endpoint.
pub open spec fn endpoint_accepts(url: Seq<char>) -> bool {
    endpoint_named(url) is Some
}

/// `tonic::transport::Endpoint::from_shared` on a copy of `url`. The contract
/// claims that whether it succeeds, and the endpoint it gives, depend on the
/// text alone.
#[verifier::external_body]
fn endpoint_from_shared(url: &str) -> (r: Result<Endpoint, tonic::transport::Error>)
    ensures
        r is Ok <==> endpoint_named(url@) is Some,
        r matches Ok(endpoint) ==> endpoint_named(url@) == Some(endpoint),
{
    Endpoint::from_shared(url.to_string())
}

/// `FlightSqlServiceClient::new` over an open channel. Nothing is claimed of
/// the handle it gives: it holds a map of headers whose hasher is seeded
/// anew for each handle, so two handles over one channel are not the same.
#[verifier::external_body]
fn flight_client_over(channel: Channel) -> (handle: FlightSqlServiceClient<Channel>) {
    FlightSqlServiceClient::new(channel)
}

/// An established session with the coordinator.
pub struct Client {
    flight_sql_service_client: FlightSqlServiceClient<Channel>,
}

impl Client {
    /// The handle that the session owns.
    pub closed spec fn handle(self) -> FlightSqlServiceClient<Channel> {
        self.flight_sql_service_client
    }

    /// The endpoint to connect to, or a `Transport` failure where the address
    /// is malformed. No connection is attempted.
    pub fn endpoint(url: &str) -> (r: Result<Endpoint, DremioClientError>)
        ensures
            r is Ok <==> endpoint_accepts(url@),
            r matches Ok(endpoint) ==> endpoint_named(url@) == Some(endpoint),
            r matches Err(e) ==> e matches DremioClientError::Transport(
                TransportCause::Channel(_),
            ),
    {
        Self::located(endpoint_from_shared(url))
    }

    /// What follows the reading of an address: the endpoint that it names, or
    /// a `Transport` failure that carries the reader's error.
    pub fn located(reading: Result<Endpoint, tonic::transport::Error>) -> (r: Result<
        Endpoint,
        DremioClientError,
    >)
        ensures
            reading matches Ok(endpoint) ==> r == Ok::<Endpoint, DremioClientError>(endpoint),
            reading matches Err(e) ==> r == Err::<Endpoint, _>(
                DremioClientError::Transport(TransportCause::Channel(e)),
            ),
    {
        match reading {
            Ok(endpoint) => Ok(endpoint),
            Err(e) => Err(DremioClientError::Transport(TransportCause::Channel(e))),
        }
    }

    /// What follows the attempt to connect: a handle over the channel that
    /// was opened, not yet authenticated, or a `Transport` failure that
    /// carries the channel's error. An open channel always gives a handle.
    pub fn connected(attempt: Result<Channel, tonic::transport::Error>) -> (r: Result<
        FlightSqlServiceClient<Channel>,
        DremioClientError,
    >)
        ensures
            attempt is Ok ==> r is Ok,
            attempt matches Err(e) ==> r == Err::<FlightSqlServiceClient<Channel>, _>(
                DremioClientError::Transport(TransportCause::Channel(e)),
            ),
    {
        match attempt {
            Ok(channel) => Ok(flight_client_over(channel)),
            Err(e) => Err(DremioClientError::Transport(TransportCause::Channel(e))),
        }
    }

    /// The session, given the handle and how its handshake ended. A handshake
    /// that failed gives a `Transport` failure with its error as the cause,
    /// and the handle is dropped: no session is left behind.
    pub fn new(handle: FlightSqlServiceClient<Channel>, handshake: Result<(), FlightError>) -> (r:
        Result<Client, DremioClientError>)
        ensures
            handshake is Ok ==> r is Ok && r->Ok_0.handle() == handle,
            handshake matches Err(e) ==> r == Err::<Client, _>(
                DremioClientError::Transport(TransportCause::Flight(e)),
            ),
    {
        match handshake {
            Ok(()) => Ok(Client { flight_sql_service_client: handle }),
            Err(e) => Err(DremioClientError::Transport(TransportCause::Flight(e))),
        }
    }

    /// The underlying Flight SQL handle.
    pub fn inner(&self) -> (handle: &FlightSqlServiceClient<Channel>)
        ensures
            *handle == self.handle(),
    {
        &self.flight_sql_service_client
    }

    /// The underlying Flight SQL handle, to make the session's calls on.
    pub fn inner_mut(&mut self) -> (handle: &mut FlightSqlServiceClient<Channel>)
        ensures
            *handle == old(self).handle(),
            final(self).handle() == *final(handle),
    {
        &mut self.flight_sql_service_client
    }
}

} // verus!
