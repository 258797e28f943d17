//! Query submission: from the server's answer to the ticket to fetch with.

use crate::error::{DremioClientError, RejectionCause};
use crate::session::Client;
use arrow_flight::error::FlightError;
use vstd::prelude::*;

verus! {

/// An opaque token that names one result stream on one endpoint.
#[derive(Debug, PartialEq, Eq)]
pub struct Ticket {
    pub bytes: Vec<u8>,
}

/// One place where a part of a result can be fetched.
#[derive(Debug, PartialEq, Eq)]
pub struct ResultEndpoint {
    /// The addresses that serve the stream; none means the service that was
    /// asked.
    pub locations: Vec<String>,
    /// The token to present there.
    pub ticket: Option<Ticket>,
}

/// What the server answers to a statement: where its result is to be had.
#[derive(Debug, PartialEq, Eq)]
pub struct QueryDescriptor {
    /// The endpoints, in the order the server gave them.
    pub endpoints: Vec<ResultEndpoint>,
}

impl QueryDescriptor {
    /// The ticket that a fetch presents: that of the first endpoint. Only
    /// this endpoint is ever consumed; an answer without it is a rejection.
    pub open spec fn resolution(self) -> Result<Ticket, DremioClientError> {
        if self.endpoints@.len() == 0 {
            Err(DremioClientError::RemoteRejection(RejectionCause::NoEndpoint))
        } else {
            match self.endpoints@[0].ticket {
                Some(ticket) => Ok(ticket),
                None => Err(DremioClientError::RemoteRejection(RejectionCause::MissingTicket)),
            }
        }
    }

    /// The ticket of the first endpoint. Endpoints after the first are
    /// dropped unread.
    pub fn first_ticket(self) -> (r: Result<Ticket, DremioClientError>)
        ensures
            r == self.resolution(),
    {
        let mut endpoints = self.endpoints;
        if endpoints.len() == 0 {
            return Err(DremioClientError::RemoteRejection(RejectionCause::NoEndpoint));
        }
        let first = endpoints.remove(0);
        match first.ticket {
            Some(ticket) => Ok(ticket),
            None => Err(DremioClientError::RemoteRejection(RejectionCause::MissingTicket)),
        }
    }
}

impl Client {
    /// What follows the submission of a statement: the ticket to fetch with,
    /// or a `RemoteRejection` that carries the server's refusal or names what
    /// its answer lacks.
    pub fn submitted(&self, answer: Result<QueryDescriptor, FlightError>) -> (r: Result<
        Ticket,
        DremioClientError,
    >)
        ensures
            answer matches Ok(descriptor) ==> r == descriptor.resolution(),
            answer matches Err(e) ==> r == Err::<Ticket, _>(
                DremioClientError::RemoteRejection(RejectionCause::Flight(e)),
            ),
    {
        match answer {
            Ok(descriptor) => descriptor.first_ticket(),
            Err(e) => Err(DremioClientError::RemoteRejection(RejectionCause::Flight(e))),
        }
    }
}

} // verus!
