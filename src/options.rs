//! The configuration of a client.
use crate::error::Error;
use crate::headers::header_fields;
use crate::headers::header_map_with;
use crate::headers::is_header_value;
use crate::headers::single_field;
use reqwest::header::HeaderMap;
use vstd::prelude::*;
use vstd::utf8::encode_utf8;

verus! {

/// Configuration for the client: the API key, and whether a request that is
/// rejected for its rate is tried once more after the delay the server asks for.
#[derive(Clone, Debug)]
pub struct ClientOptions {
    pub api_key: String,
    pub retry: bool,
}

impl ClientOptions {
    /// Constructs an instance of `ClientOptions`.
    pub fn new(api_key: &str, retry: bool) -> (r: Self)
        ensures
            r.api_key@ == api_key@,
            r.retry == retry,
    {
        ClientOptions { api_key: api_key.to_string(), retry }
    }

    /// The headers that authenticate a request: the key under `X-Riot-Token`.
    /// Fails with `InvalidApiKey` when the key holds a byte that a header value
    /// cannot carry.
    pub fn auth_headers(&self) -> (r: Result<HeaderMap, Error>)
        ensures
            (r is Ok) == is_header_value(encode_utf8(self.api_key@)),
            r is Ok ==> header_fields(r->Ok_0) == single_field(
                "x-riot-token"@,
                encode_utf8(self.api_key@),
            ),
            r is Err ==> r->Err_0 == Error::InvalidApiKey,
    {
        proof {
            reveal_strlit("x-riot-token");
        }
        match header_map_with("x-riot-token", self.api_key.as_str()) {
            Some(headers) => Ok(headers),
            None => Err(Error::InvalidApiKey),
        }
    }
}

} // verus!
