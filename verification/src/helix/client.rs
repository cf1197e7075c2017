//! Helix client configuration, request authorization mode, and typed
//! responses.

use crate::config::production_helix_base_url;
use crate::helix::error::HelixError;
use crate::id::{ClientId, UserId};
use crate::pagination::PageInfo;
use crate::rate_limit::RateLimitMetadata;
use vstd::prelude::*;
use vstd::string::*;

verus! {

/// Configuration for the typed Helix client.
#[derive(Clone, Debug)]
pub struct HelixClientConfig {
    /// Twitch application client identifier used for `Client-Id` headers.
    pub client_id: ClientId,
    /// Base URL for the Helix API.
    pub base_url: String,
}

impl HelixClientConfig {
    /// Returns the standard Twitch production Helix configuration.
    pub fn production(client_id: ClientId) -> (r: Self)
        ensures
            r.client_id == client_id,
            r.base_url@ == production_helix_base_url(),
    {
        HelixClientConfig { client_id, base_url: String::from_str("https://api.twitch.tv/helix") }
    }

    /// The client identifier a builder uses: the one set explicitly, else
    /// the fallback (the token manager's), if any.
    pub fn client_id_or(explicit: Option<ClientId>, fallback: Option<ClientId>) -> (r: Option<
        ClientId,
    >)
        ensures
            r == match explicit {
                Some(c) => Some(c),
                None => fallback,
            },
    {
        match explicit {
            Some(c) => Some(c),
            None => fallback,
        }
    }

    /// The configuration a client builder yields from what was set on it: a
    /// client identifier is required, and the base URL defaults to
    /// production.
    pub fn from_builder_parts(client_id: Option<ClientId>, base_url: Option<String>) -> (r: Result<
        Self,
        HelixError,
    >)
        ensures
            client_id is None ==> (r matches Err(HelixError::Configuration(m)) && m@
                == "helix client requires a client_id"@),
            client_id matches Some(id) ==> (r matches Ok(c) && c.client_id == id && c.base_url@
                == match base_url {
                Some(u) => u@,
                None => production_helix_base_url(),
            }),
    {
        match client_id {
            None => Err(HelixError::Configuration(String::from_str("helix client requires a client_id"))),
            Some(client_id) => {
                let base_url = match base_url {
                    Some(u) => u,
                    None => String::from_str("https://api.twitch.tv/helix"),
                };
                Ok(HelixClientConfig { client_id, base_url })
            },
        }
    }
}

/// Which token authorizes a Helix request.
#[derive(Clone, Debug, PartialEq, Eq)]
pub enum HelixRequestAuth {
    /// The application's app access token.
    App,
    /// The user access token of the given user.
    User {
        /// User whose token authorizes the request.
        user_id: UserId,
    },
}

/// A typed Helix response: the decoded data, pagination and rate-limit
/// metadata.
#[derive(Clone, Debug, PartialEq, Eq)]
pub struct HelixResponse<T> {
    data: T,
    pagination: Option<PageInfo>,
    rate_limit: Option<RateLimitMetadata>,
}

impl<T> HelixResponse<T> {
    /// Data of the response.
    pub closed spec fn data_spec(&self) -> T {
        self.data
    }

    /// Pagination of the response.
    pub closed spec fn pagination_spec(&self) -> Option<PageInfo> {
        self.pagination
    }

    /// Rate-limit metadata of the response.
    pub closed spec fn rate_limit_spec(&self) -> Option<RateLimitMetadata> {
        self.rate_limit
    }

    /// Assembles a response.
    pub fn new(data: T, pagination: Option<PageInfo>, rate_limit: Option<RateLimitMetadata>) -> (r: Self)
        ensures
            r.data_spec() == data,
            r.pagination_spec() == pagination,
            r.rate_limit_spec() == rate_limit,
    {
        HelixResponse { data, pagination, rate_limit }
    }

    /// The decoded response data.
    pub fn data(&self) -> (r: &T)
        ensures
            *r == self.data_spec(),
    {
        &self.data
    }

    /// Consumes the response and returns its data.
    pub fn into_data(self) -> (r: T)
        ensures
            r == self.data_spec(),
    {
        self.data
    }

    /// Pagination metadata, when the response carried a cursor.
    pub fn pagination(&self) -> (r: Option<&PageInfo>)
        ensures
            r == match self.pagination_spec() {
                Some(p) => Some(&p),
                None => None::<&PageInfo>,
            },
    {
        match &self.pagination {
            Some(p) => Some(p),
            None => None,
        }
    }

    /// Rate-limit metadata, when the response carried valid headers.
    pub fn rate_limit(&self) -> (r: Option<RateLimitMetadata>)
        ensures
            r == self.rate_limit_spec(),
    {
        self.rate_limit
    }
}

} // verus!
