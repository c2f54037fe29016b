//! The data source: which request fetches the statistics of a period, and
//! what the answer to it is worth.

use crate::adapter::address::{join_url, joined_url};
use crate::application::config::WakaTimeConfig;
use crate::error::Error;
use reqwest_middleware::ClientWithMiddleware;
use vstd::prelude::*;

verus! {

/// The HTTP client of the `reqwest_middleware` crate,
/// `reqwest_middleware::ClientWithMiddleware`, carried through as it is.
#[verifier::external_type_specification]
#[verifier::external_body]
pub struct ExClientWithMiddleware(reqwest_middleware::ClientWithMiddleware);

/// The path of the statistics of the current user, relative to the base
/// address of the service.
pub open spec fn stats_path() -> Seq<char> {
    "users/current/stats/"@
}

/// The address of the statistics that `cfg` asks for: the label of the
/// period, resolved relative to the statistics path, which is resolved
/// relative to the base address.
pub open spec fn stats_url(cfg: WakaTimeConfig) -> Option<Seq<char>> {
    match joined_url(cfg.base_url@, stats_path()) {
        Some(root) => joined_url(root, cfg.time_range.label()),
        None => None,
    }
}

/// The authorization that goes with the request: the scheme and the key.
pub open spec fn authorization(cfg: WakaTimeConfig) -> Seq<char> {
    "Basic "@ + cfg.api_key@
}

/// A status that reports success.
pub open spec fn is_success(status: u16) -> bool {
    200 <= status < 300
}

/// The request for the statistics: a GET of `url` with the header
/// `Authorization` set to `authorization`.
#[derive(Debug)]
pub struct StatsRequest {
    pub url: String,
    pub authorization: String,
}

/// The answer of the service: its status and its body.
#[derive(Debug)]
pub struct StatsResponse {
    pub status: u16,
    pub body: String,
}

/// Fetches the statistics of a period from the service.
#[derive(Debug)]
pub struct WakaTimeAdapter {
    cfg: WakaTimeConfig,
    client: ClientWithMiddleware,
}

impl WakaTimeAdapter {
    /// The configuration that the adapter fetches with.
    pub closed spec fn config(&self) -> WakaTimeConfig {
        self.cfg
    }

    /// The client that sends the requests.
    pub closed spec fn http_client(&self) -> ClientWithMiddleware {
        self.client
    }

    /// Creates an adapter that fetches as `cfg` says, through `client`.
    pub fn new(cfg: WakaTimeConfig, client: ClientWithMiddleware) -> (adapter: Self)
        ensures
            adapter.config() == cfg,
            adapter.http_client() == client,
    {
        Self { cfg, client }
    }

    /// The client that sends the requests.
    pub fn client(&self) -> (client: &ClientWithMiddleware)
        ensures
            *client == self.http_client(),
    {
        &self.client
    }

    /// The request that fetches the statistics. There is none where the
    /// base address and the period give no address.
    pub fn request(&self) -> (r: Result<StatsRequest, Error>)
        ensures
            match stats_url(self.config()) {
                Some(url) => r is Ok && r->Ok_0.url@ == url && r->Ok_0.authorization@
                    == authorization(self.config()),
                None => r == Err::<StatsRequest, Error>(Error::FetchFailed),
            },
    {
        let root = match join_url(self.cfg.base_url.as_str(), "users/current/stats/") {
            Ok(root) => root,
            Err(_) => return Err(Error::FetchFailed),
        };
        let range = self.cfg.time_range.to_string();
        let url = match join_url(root.as_str(), range.as_str()) {
            Ok(url) => url,
            Err(_) => return Err(Error::FetchFailed),
        };
        let mut authorization = String::from_str("Basic ");
        authorization.append(self.cfg.api_key.as_str());
        Ok(StatsRequest { url, authorization })
    }

    /// The statistics that an answer of the service holds: its body, where
    /// its status reports success. Any other answer is a failed fetch.
    pub fn fetch_data(&self, response: StatsResponse) -> (r: Result<String, Error>)
        ensures
            r == if is_success(response.status) {
                Ok::<String, Error>(response.body)
            } else {
                Err(Error::FetchFailed)
            },
    {
        if 200 <= response.status && response.status < 300 {
            Ok(response.body)
        } else {
            Err(Error::FetchFailed)
        }
    }
}

} // verus!
