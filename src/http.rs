//! The error side of a typed HTTP round trip with a provider.
use vstd::prelude::*;
use vstd::std_specs::convert::FromSpec;
use crate::{balancer, oneinch, zeroex};

verus! {

/// The HTTP status of a rate-limited request.
pub const TOO_MANY_REQUESTS: u16 = 429;

/// A failure below the provider's own error vocabulary.
#[derive(Clone, Debug)]
pub enum HttpError {
    /// A response with a non-success status whose body was not a provider error.
    Status { code: u16, body: String },
    /// The request could not be sent or its response could not be read.
    Transport(String),
}

impl HttpError {
    pub open spec fn is_rate_limited_spec(self) -> bool {
        self matches HttpError::Status { code, .. } && code == TOO_MANY_REQUESTS
    }

    /// Whether this is a response with status 429.
    pub fn is_rate_limited(&self) -> (r: bool)
        ensures
            r == self.is_rate_limited_spec(),
    {
        match self {
            HttpError::Status { code, .. } => *code == TOO_MANY_REQUESTS,
            HttpError::Transport(_) => false,
        }
    }
}

/// The failure of a round trip: at the HTTP level, or an error body that
/// the provider sent.
#[derive(Clone, Debug)]
pub enum RoundtripError<E> {
    Http(HttpError),
    Api(E),
}


/// A response with status 429 is a rate limit with every provider, never an
/// HTTP failure or a missing route.
pub proof fn lemma_rate_limited_everywhere(err: HttpError)
    requires
        err.is_rate_limited_spec(),
    ensures
        <zeroex::Error as FromSpec<RoundtripError<zeroex::ApiError>>>::from_spec(
            RoundtripError::Http(err),
        ) is RateLimited,
        <oneinch::Error as FromSpec<RoundtripError<oneinch::ApiError>>>::from_spec(
            RoundtripError::Http(err),
        ) is RateLimited,
        <balancer::Error as FromSpec<HttpError>>::from_spec(err) is RateLimited,
{
}

/// An error body that carries the code 429 is a rate limit too, with both
/// providers that send error bodies.
pub proof fn lemma_rate_limited_bodies(zeroex_body: zeroex::ApiError, oneinch_body: oneinch::ApiError)
    requires
        zeroex_body.code == 429,
        oneinch_body.status_code == 429,
    ensures
        <zeroex::Error as FromSpec<RoundtripError<zeroex::ApiError>>>::from_spec(
            RoundtripError::Api(zeroex_body),
        ) is RateLimited,
        <oneinch::Error as FromSpec<RoundtripError<oneinch::ApiError>>>::from_spec(
            RoundtripError::Api(oneinch_body),
        ) is RateLimited,
{
}

} // verus!
