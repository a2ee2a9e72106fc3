//! Ownership bookkeeping for the kernel query channel.
//!
//! The underlying transport executes requests asynchronously, but every
//! caller here needs a synchronous result.  The driver therefore takes the
//! connection resource out, races it against the pending request, and puts
//! it back only when the race ends with the connection intact.  This module
//! keeps that ownership transfer auditable: if the resource was not
//! returned (a prior operation failed mid-flight), every later request on
//! the same instance fails fast as disconnected instead of blocking forever
//! or reusing a stale handle.  The caller performs the race itself and
//! reports how it ended; this type decides what that outcome means.

use vstd::prelude::*;

use crate::link::{Address, Link};
use crate::Error;

verus! {

/// Stands for the live connection resource while this instance holds it.
pub struct ConnectionToken;

/// How one race of the connection driver against a pending request ended.
pub enum RequestOutcome<T> {
    /// The driver resolved first: the connection is gone and no response
    /// will ever arrive.
    ConnectionClosed,
    /// The transport failed while the request was in flight; the connection
    /// was consumed by the failure.
    ConnectionFailed,
    /// The request completed with a response, and the connection came back
    /// intact.
    Response(T),
    /// The kernel facility rejected or errored on this query; the
    /// connection came back intact.
    RequestFailed,
}

/// A channel to the kernel's network configuration facility, owning the
/// connection resource between requests.
pub struct NetlinkConnection {
    connection: Option<ConnectionToken>,
}

impl NetlinkConnection {
    /// Whether this instance still holds the connection resource.
    pub closed spec fn is_connected(self) -> bool {
        self.connection is Some
    }

    /// A freshly opened connection holds its resource.
    pub fn new() -> (r: NetlinkConnection)
        ensures
            r.is_connected(),
    {
        NetlinkConnection { connection: Some(ConnectionToken) }
    }

    /// Settles one request from the outcome of its race against the
    /// connection driver.  Without the resource the request fails fast as
    /// disconnected; an outcome that consumed the connection leaves the
    /// instance disconnected for good; an outcome that returned it keeps
    /// the instance usable.
    pub fn execute_request<T>(&mut self, outcome: RequestOutcome<T>) -> (r: Result<T, Error>)
        ensures
            !old(self).is_connected() ==> {
                &&& r == Result::<T, Error>::Err(Error::NetlinkDisconnected)
                &&& !final(self).is_connected()
            },
            old(self).is_connected() ==> match outcome {
                RequestOutcome::ConnectionClosed => {
                    &&& r == Result::<T, Error>::Err(Error::NetlinkDisconnected)
                    &&& !final(self).is_connected()
                },
                RequestOutcome::ConnectionFailed => {
                    &&& r == Result::<T, Error>::Err(Error::NetlinkError)
                    &&& !final(self).is_connected()
                },
                RequestOutcome::Response(response) => {
                    &&& r == Result::<T, Error>::Ok(response)
                    &&& final(self).is_connected()
                },
                RequestOutcome::RequestFailed => {
                    &&& r == Result::<T, Error>::Err(Error::GetLinksError)
                    &&& final(self).is_connected()
                },
            },
    {
        let connection = match self.connection.take() {
            Some(token) => token,
            None => {
                return Err(Error::NetlinkDisconnected);
            },
        };
        let (result, connection) = match outcome {
            RequestOutcome::ConnectionClosed => {
                return Err(Error::NetlinkDisconnected);
            },
            RequestOutcome::ConnectionFailed => {
                return Err(Error::NetlinkError);
            },
            RequestOutcome::Response(response) => (Ok(response), connection),
            RequestOutcome::RequestFailed => (Err(Error::GetLinksError), connection),
        };
        self.connection = Some(connection);
        result
    }

    /// Settles a query for all IP addresses assigned on the host.
    pub fn addresses(&mut self, outcome: RequestOutcome<Vec<Address>>) -> (r: Result<
        Vec<Address>,
        Error,
    >)
        ensures
            !old(self).is_connected() ==> {
                &&& r == Result::<Vec<Address>, Error>::Err(Error::NetlinkDisconnected)
                &&& !final(self).is_connected()
            },
            old(self).is_connected() ==> match outcome {
                RequestOutcome::ConnectionClosed => {
                    &&& r == Result::<Vec<Address>, Error>::Err(Error::NetlinkDisconnected)
                    &&& !final(self).is_connected()
                },
                RequestOutcome::ConnectionFailed => {
                    &&& r == Result::<Vec<Address>, Error>::Err(Error::NetlinkError)
                    &&& !final(self).is_connected()
                },
                RequestOutcome::Response(response) => {
                    &&& r == Result::<Vec<Address>, Error>::Ok(response)
                    &&& final(self).is_connected()
                },
                RequestOutcome::RequestFailed => {
                    &&& r == Result::<Vec<Address>, Error>::Err(Error::GetLinksError)
                    &&& final(self).is_connected()
                },
            },
    {
        self.execute_request(outcome)
    }

    /// Settles a query for all links registered on the system.
    pub fn links(&mut self, outcome: RequestOutcome<Vec<Link>>) -> (r: Result<Vec<Link>, Error>)
        ensures
            !old(self).is_connected() ==> {
                &&& r == Result::<Vec<Link>, Error>::Err(Error::NetlinkDisconnected)
                &&& !final(self).is_connected()
            },
            old(self).is_connected() ==> match outcome {
                RequestOutcome::ConnectionClosed => {
                    &&& r == Result::<Vec<Link>, Error>::Err(Error::NetlinkDisconnected)
                    &&& !final(self).is_connected()
                },
                RequestOutcome::ConnectionFailed => {
                    &&& r == Result::<Vec<Link>, Error>::Err(Error::NetlinkError)
                    &&& !final(self).is_connected()
                },
                RequestOutcome::Response(links) => {
                    &&& r == Result::<Vec<Link>, Error>::Ok(links)
                    &&& final(self).is_connected()
                },
                RequestOutcome::RequestFailed => {
                    &&& r == Result::<Vec<Link>, Error>::Err(Error::GetLinksError)
                    &&& final(self).is_connected()
                },
            },
    {
        self.execute_request(outcome)
    }

    /// Settles a query for all links and reduces it to the unique indices
    /// of the links that provide connectivity.
    pub fn running_interfaces(&mut self, outcome: RequestOutcome<Vec<Link>>) -> (r: Result<
        Vec<u32>,
        Error,
    >)
        ensures
            !old(self).is_connected() ==> {
                &&& r == Result::<Vec<u32>, Error>::Err(Error::NetlinkDisconnected)
                &&& !final(self).is_connected()
            },
            old(self).is_connected() ==> match outcome {
                RequestOutcome::ConnectionClosed => {
                    &&& r == Result::<Vec<u32>, Error>::Err(Error::NetlinkDisconnected)
                    &&& !final(self).is_connected()
                },
                RequestOutcome::ConnectionFailed => {
                    &&& r == Result::<Vec<u32>, Error>::Err(Error::NetlinkError)
                    &&& !final(self).is_connected()
                },
                RequestOutcome::Response(links) => {
                    &&& final(self).is_connected()
                    &&& match r {
                        Ok(indices) => {
                            &&& forall|i: u32|
                                indices@.contains(i) <==> crate::link::is_qualifying_index(
                                    links@,
                                    i,
                                )
                            &&& indices@.no_duplicates()
                        },
                        Err(_) => false,
                    }
                },
                RequestOutcome::RequestFailed => {
                    &&& r == Result::<Vec<u32>, Error>::Err(Error::GetLinksError)
                    &&& final(self).is_connected()
                },
            },
    {
        let links = self.links(outcome)?;
        Ok(crate::link::running_interfaces(&links))
    }
}

} // verus!
