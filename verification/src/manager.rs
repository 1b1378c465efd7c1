//! The manager client and its action trigger.
//!
//! The one remote action here, the probe, supports two addressable behaviors
//! selected by a configuration flag that the caller reads fresh at each call
//! (an environment-style value; the lookup itself is an adapter outside this
//! library). With the flag unset the call is a no-op that always succeeds;
//! with the flag set to the sentinel `"1"` the alternate path is invoked;
//! with the flag set to anything else the default path is invoked.

use vstd::prelude::*;
use crate::error::RemoteError;
use crate::http::{BaseHTTPClient, HttpRequest, HttpVerb};

verus! {

/// Client for the manager service.
pub struct ManagerHTTPClient {
    client: BaseHTTPClient,
}

/// What a trigger call must do: nothing at all (and report success), or
/// perform the given request.
#[derive(Debug)]
pub enum ProbeAction {
    Skip,
    Invoke { request: HttpRequest },
}

impl ManagerHTTPClient {
    /// The base URL the underlying resource client is configured with.
    pub closed spec fn base(&self) -> Seq<char> {
        self.client.base()
    }

    /// A manager client against the default service endpoint.
    pub fn new() -> (r: Result<ManagerHTTPClient, RemoteError>)
        ensures
            r matches Ok(c) && c.base() == "http://localhost/api"@,
    {
        match BaseHTTPClient::new() {
            Ok(client) => Ok(ManagerHTTPClient { client }),
            Err(e) => Err(e),
        }
    }

    /// A manager client on top of an already configured resource client.
    pub fn new_with_base(base: BaseHTTPClient) -> (r: ManagerHTTPClient)
        ensures
            r.base() == base.base(),
    {
        ManagerHTTPClient { client: base }
    }

    /// Resolve the probe action from the flag value at call time: unset
    /// skips the call and reports success, the sentinel `"1"` selects the
    /// synchronous probe path, any other value selects the default path.
    /// The action posts an empty body either way.
    pub fn probe_plan(&self, flag: Option<String>) -> (r: ProbeAction)
        ensures
            flag is None ==> r is Skip,
            (flag matches Some(v) && v@ == "1"@) ==> (r matches ProbeAction::Invoke { request }
                && request.verb == HttpVerb::Post && request@.url == self.base()
                + "/manager/probe_sync"@ && request@.body == Seq::<u8>::empty()),
            (flag matches Some(v) && v@ != "1"@) ==> (r matches ProbeAction::Invoke { request }
                && request.verb == HttpVerb::Post && request@.url == self.base()
                + "/manager/probe"@ && request@.body == Seq::<u8>::empty()),
    {
        match flag {
            None => ProbeAction::Skip,
            Some(value) => {
                let sentinel = "1".to_owned();
                if value == sentinel {
                    ProbeAction::Invoke { request: self.client.trigger_request(
                        "/manager/probe_sync",
                    ) }
                } else {
                    ProbeAction::Invoke { request: self.client.trigger_request(
                        "/manager/probe",
                    ) }
                }
            },
        }
    }
}

} // verus!
