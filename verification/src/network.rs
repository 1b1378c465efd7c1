//! The network client and its upsert coordinator.
//!
//! The upsert is check-then-act: probe the resource with a read of its item
//! path, then replace it in place if the probe succeeded, create it under
//! the collection path if the probe failed with not-found, and abort with
//! the probe's error — issuing no write at all — on every other failure.
//! The race window between probe and write is accepted, documented behavior.

use vstd::prelude::*;
use crate::error::{RemoteError, RemoteErrorView};
use crate::http::{BaseHTTPClient, HttpRequest, HttpVerb};

verus! {

/// Client for the network service.
pub struct NetworkClient {
    pub client: BaseHTTPClient,
}

/// What an upsert must do after the existence probe: replace the resource in
/// place, create it under the collection path, or give up with the probe's
/// own error and issue no write.
#[derive(Debug)]
pub enum UpsertAction {
    Replace { request: HttpRequest },
    Create { request: HttpRequest },
    Abort { error: RemoteError },
}

/// The collection path of network connections.
pub open spec fn spec_connections_path() -> Seq<char> {
    "/network/connections"@
}

/// The item path of the connection with the given identifier.
pub open spec fn spec_connection_path(id: Seq<char>) -> Seq<char> {
    "/network/connections/"@ + id
}

impl NetworkClient {
    /// The base URL the underlying resource client is configured with.
    pub open spec fn base(&self) -> Seq<char> {
        self.client.base()
    }

    /// A network client on top of an already configured resource client.
    pub fn new(client: BaseHTTPClient) -> (r: Result<NetworkClient, RemoteError>)
        ensures
            r matches Ok(c) && c.base() == client.base(),
    {
        Ok(NetworkClient { client })
    }

    /// The read request for the device collection.
    pub fn devices_request(&self) -> (r: HttpRequest)
        ensures
            r.verb == HttpVerb::Get,
            r@.url == self.base() + "/network/devices"@,
            r@.body == Seq::<u8>::empty(),
    {
        self.client.fetch_request("/network/devices")
    }

    /// The read request for the connection collection.
    pub fn connections_request(&self) -> (r: HttpRequest)
        ensures
            r.verb == HttpVerb::Get,
            r@.url == self.base() + spec_connections_path(),
            r@.body == Seq::<u8>::empty(),
    {
        self.client.fetch_request("/network/connections")
    }

    /// The item path of the connection with the given identifier.
    pub fn connection_path(&self, id: &str) -> (r: String)
        ensures
            r@ == spec_connection_path(id@),
    {
        let mut path = "/network/connections/".to_owned();
        path.append(id);
        path
    }

    /// The read request for one connection, by identifier. Its outcome is
    /// also the upsert's existence probe.
    pub fn connection_request(&self, id: &str) -> (r: HttpRequest)
        ensures
            r.verb == HttpVerb::Get,
            r@.url == self.base() + spec_connection_path(id@),
            r@.body == Seq::<u8>::empty(),
    {
        let path = self.connection_path(id);
        self.client.fetch_request(path.as_str())
    }

    /// Decide the write half of an upsert from the probe of the item path:
    /// a successful probe means the resource exists and is replaced in
    /// place; a not-found protocol failure means it does not exist yet and
    /// is created under the collection path; any other probe failure aborts
    /// the upsert with that error, and no write is issued.
    pub fn upsert_plan(&self, id: &str, payload: Vec<u8>, probe: Result<Vec<u8>, RemoteError>)
        -> (r: UpsertAction)
        ensures
            probe is Ok ==> (r matches UpsertAction::Replace { request } && request.verb
                == HttpVerb::Put && request@.url == self.base() + spec_connection_path(id@)
                && request@.body == payload@),
            probe matches Err(e) ==> if e@.is_not_found() {
                r matches UpsertAction::Create { request } && request.verb == HttpVerb::Post
                    && request@.url == self.base() + spec_connections_path() && request@.body
                    == payload@
            } else {
                r matches UpsertAction::Abort { error } && error@ == e@
            },
    {
        match probe {
            Ok(_) => {
                let path = self.connection_path(id);
                UpsertAction::Replace { request: self.client.replace_request(
                    path.as_str(),
                    payload,
                ) }
            },
            Err(error) => {
                if error.not_found() {
                    UpsertAction::Create { request: self.client.create_request(
                        "/network/connections",
                        payload,
                    ) }
                } else {
                    UpsertAction::Abort { error }
                }
            },
        }
    }

    /// The request that applies the accumulated network configuration: a
    /// side-effecting action carrying no payload, sent as a replace of the
    /// apply path with an empty body.
    pub fn apply_request(&self) -> (r: HttpRequest)
        ensures
            r.verb == HttpVerb::Put,
            r@.url == self.base() + "/network/system/apply"@,
            r@.body == Seq::<u8>::empty(),
    {
        self.client.replace_request("/network/system/apply", Vec::new())
    }
}

} // verus!
