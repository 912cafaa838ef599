//! The user-facing client handle: one dispatcher, shared by reference by
//! every resource facade.
//!
//! Cloning the handle (or a facade) multiplies the owners of the same
//! dispatcher allocation; it never creates a second credential, routing
//! table or throughput budget.

use std::sync::Arc;

use reqwest::Client as ReqwestClient;
use vstd::prelude::*;

use crate::config::{
    default_transport, parsed_url, spec_default_base_url, spec_user_agent, Config,
};
use crate::contacts::Contacts;
use crate::emails::EmailsSvc;
use crate::limit::{Quota, DEFAULT_BURST, DEFAULT_PERIOD_NS};
use crate::ConfigError;

verus! {

/// A minimal client for the transactional-email service: a handle that
/// owns one dispatcher and exposes one facade per resource family, all
/// bound to that dispatcher.
#[must_use]
pub struct Client {
    /// Operations on `/emails` endpoints.
    pub emails: EmailsSvc,
    /// Operations on `/audiences/:id/contacts` endpoints.
    pub contacts: Contacts,
}

impl Clone for Client {
    /// Cloning the handle multiplies the owners of the one dispatcher: the
    /// clone's facades are bound to the very same dispatcher as the
    /// original's, so no second credential, routing table or throughput
    /// budget comes into being.
    fn clone(&self) -> (r: Self)
        ensures
            r.emails.0 == self.emails.0,
            r.contacts.0 == self.contacts.0,
            self.wf() ==> r.wf() && r.config() == self.config(),
    {
        Client {
            emails: EmailsSvc(Arc::clone(&self.emails.0)),
            contacts: Contacts(Arc::clone(&self.contacts.0)),
        }
    }
}

impl Client {
    /// All facades of the handle are bound to one and the same dispatcher.
    pub open spec fn wf(self) -> bool {
        self.emails.0 == self.contacts.0
    }

    /// The dispatcher the handle's facades share.
    pub open spec fn config(self) -> Config {
        *self.emails.0
    }

    /// Binds every facade to one shared dispatcher.  The dispatcher is
    /// moved into a single shared allocation; no facade ever holds a copy.
    pub fn from_config(config: Config) -> (r: Client)
        ensures
            r.wf(),
            r.config() == config,
    {
        let inner = Arc::new(config);
        Client { emails: EmailsSvc(Arc::clone(&inner)), contacts: Contacts(inner) }
    }

    /// Creates a client from a credential and a provided transport, with
    /// the production base URL and the default throughput quota.
    /// Construction fails only on fatal misconfiguration.
    pub fn with_client(api_key: &str, client: ReqwestClient) -> (r: Result<Client, ConfigError>)
        ensures
            r is Ok <==> parsed_url(spec_default_base_url()) is Some,
            parsed_url(spec_default_base_url()) is None ==> r == Result::<
                Client,
                ConfigError,
            >::Err(ConfigError::InvalidBaseUrl),
            r matches Ok(c) ==> {
                &&& c.wf()
                &&& c.config().api_key@ == api_key@
                &&& c.config().user_agent@ == spec_user_agent()
                &&& Some(c.config().base_url@) == parsed_url(spec_default_base_url())
                &&& c.config().quota == (Quota {
                    burst: DEFAULT_BURST,
                    period_ns: DEFAULT_PERIOD_NS,
                })
                &&& c.config().transport == client
                &&& c.config().wf()
            },
    {
        match Config::new(api_key, "https://api.resend.com", DEFAULT_BURST, client) {
            Ok(config) => Ok(Client::from_config(config)),
            Err(e) => Err(e),
        }
    }

    /// Creates a client from a credential, with the default transport,
    /// base URL and throughput quota: on success the handle is exactly one
    /// that [`Client::with_client`] yields for a freshly built transport,
    /// and construction fails only because the transport could not be
    /// initialized or the production base URL does not parse.
    pub fn new(api_key: &str) -> (r: Result<Client, ConfigError>)
        ensures
            r matches Ok(c) ==> {
                &&& c.wf()
                &&& c.config().api_key@ == api_key@
                &&& c.config().user_agent@ == spec_user_agent()
                &&& Some(c.config().base_url@) == parsed_url(spec_default_base_url())
                &&& c.config().quota == (Quota {
                    burst: DEFAULT_BURST,
                    period_ns: DEFAULT_PERIOD_NS,
                })
                &&& c.config().wf()
            },
            r is Err ==> (r == Result::<Client, ConfigError>::Err(
                ConfigError::TransportUnavailable,
            ) || r == Result::<Client, ConfigError>::Err(ConfigError::InvalidBaseUrl)),
            parsed_url(spec_default_base_url()) is Some ==> (r is Ok || r == Result::<
                Client,
                ConfigError,
            >::Err(ConfigError::TransportUnavailable)),
            parsed_url(spec_default_base_url()) is None ==> r is Err,
    {
        match default_transport() {
            Some(transport) => Client::with_client(api_key, transport),
            None => Err(ConfigError::TransportUnavailable),
        }
    }

    /// Returns the `User-Agent` value attached to every request.
    #[must_use]
    pub fn user_agent(&self) -> (r: String)
        ensures
            r@ == self.config().user_agent@,
    {
        self.emails.0.user_agent.clone()
    }

    /// Returns the provided API credential.
    #[must_use]
    pub fn api_key(&self) -> (r: String)
        ensures
            r@ == self.config().api_key@,
    {
        self.emails.0.api_key.clone()
    }

    /// Returns a handle to the underlying transport: a clone of the
    /// dispatcher's client, sharing its connection pool.
    #[must_use]
    pub fn client(&self) -> ReqwestClient {
        self.emails.0.transport.clone()
    }
}

/// Every facade of a well-formed handle routes through the same dispatcher:
/// whichever facade issues a call, it is authenticated by the same
/// credential, routed against the same base URL and paced by the same
/// throughput quota.
pub proof fn lemma_facades_share_dispatcher(c: Client)
    requires
        c.wf(),
    ensures
        c.emails.0 == c.config(),
        c.contacts.0 == c.config(),
{
}

} // verus!
