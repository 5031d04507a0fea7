//! Rules of the request surface: who may pass, how many at once, and what
//! each failure is answered with.

use crate::text::{chars_of, same_chars, strip_prefix_chars, strip_prefix_of};
use vstd::prelude::*;
use vstd::string::*;

verus! {

/// The kinds of failure the gateway tells apart.
#[derive(Debug, Clone, Copy, PartialEq, Eq, Structural)]
pub enum GatewayError {
    /// The bearer token is missing or wrong.
    Authentication,
    /// Too many requests are in flight.
    Admission,
    /// The body is no chat-completion request.
    BodyMalformed,
    /// The requested alias is unknown to the catalog.
    CatalogMiss,
    /// The backend did not come to run the model before the deadline.
    ConvergenceTimeout,
    /// Forwarding to the backend failed.
    Upstream,
}

/// The HTTP status a failure is answered with.
pub open spec fn spec_status_code(e: GatewayError) -> u16 {
    match e {
        GatewayError::Authentication => 401,
        GatewayError::Admission => 425,
        GatewayError::BodyMalformed => 422,
        GatewayError::CatalogMiss => 500,
        GatewayError::ConvergenceTimeout => 500,
        GatewayError::Upstream => 500,
    }
}

impl GatewayError {
    /// The HTTP status the failure is answered with.
    pub fn status_code(&self) -> (code: u16)
        ensures
            code == spec_status_code(*self),
    {
        match self {
            GatewayError::Authentication => 401,
            GatewayError::Admission => 425,
            GatewayError::BodyMalformed => 422,
            GatewayError::CatalogMiss => 500,
            GatewayError::ConvergenceTimeout => 500,
            GatewayError::Upstream => 500,
        }
    }
}

/// Whether an `Authorization` header value carries the key as a bearer token.
pub open spec fn bears_key(header: Seq<char>, api_key: Seq<char>) -> bool {
    strip_prefix_of(header, "Bearer "@) == Some(api_key)
}

/// Checks the `Authorization` header of a request against the key: the
/// request passes exactly if the header is present and is `Bearer `
/// followed by the key.
pub fn check_auth(authorization: Option<&str>, api_key: &str) -> (r: Result<(), GatewayError>)
    ensures
        r is Ok <==> (authorization is Some && bears_key(authorization->0@, api_key@)),
        r is Err ==> r->Err_0 == GatewayError::Authentication,
{
    match authorization {
        Some(header) => {
            let header = chars_of(header);
            let prefix = chars_of("Bearer ");
            match strip_prefix_chars(&header, &prefix) {
                Some(token) => {
                    if same_chars(&token, &chars_of(api_key)) {
                        Ok(())
                    } else {
                        Err(GatewayError::Authentication)
                    }
                },
                None => Err(GatewayError::Authentication),
            }
        },
        None => Err(GatewayError::Authentication),
    }
}

/// Counts the requests in flight against a ceiling.
#[derive(Debug)]
pub struct ParallelRequestLimit {
    inflight: usize,
    ceiling: usize,
}

impl ParallelRequestLimit {
    /// Requests in flight.
    pub closed spec fn spec_inflight(&self) -> nat {
        self.inflight as nat
    }

    /// The most requests that may be in flight.
    pub closed spec fn spec_ceiling(&self) -> nat {
        self.ceiling as nat
    }

    /// Never more requests are in flight than the ceiling allows.
    pub open spec fn wf(&self) -> bool {
        self.spec_inflight() <= self.spec_ceiling()
    }

    /// A counter with nothing in flight.
    pub fn new(ceiling: usize) -> (limit: Self)
        ensures
            limit.wf(),
            limit.spec_inflight() == 0,
            limit.spec_ceiling() == ceiling,
    {
        ParallelRequestLimit { inflight: 0, ceiling }
    }

    /// Requests in flight.
    pub fn inflight(&self) -> (n: usize)
        ensures
            n == self.spec_inflight(),
    {
        self.inflight
    }

    /// Admits one more request unless the ceiling is reached; says whether
    /// it was admitted.
    pub fn increase_number_of_parallel_requests(&mut self) -> (admitted: bool)
        requires
            old(self).wf(),
        ensures
            final(self).wf(),
            final(self).spec_ceiling() == old(self).spec_ceiling(),
            admitted == (old(self).spec_inflight() < old(self).spec_ceiling()),
            final(self).spec_inflight() == old(self).spec_inflight() + if admitted {
                1nat
            } else {
                0nat
            },
    {
        if self.inflight < self.ceiling {
            self.inflight += 1;
            true
        } else {
            false
        }
    }

    /// Records that an admitted request has completed.
    pub fn decrease_increase_number_of_parallel_requests(&mut self)
        requires
            old(self).wf(),
        ensures
            final(self).wf(),
            final(self).spec_ceiling() == old(self).spec_ceiling(),
            final(self).spec_inflight() == if old(self).spec_inflight() > 0 {
                (old(self).spec_inflight() - 1) as nat
            } else {
                0nat
            },
    {
        if self.inflight > 0 {
            self.inflight -= 1;
        }
    }

    /// Admission of one request: it passes unless the ceiling is reached.
    pub fn limit_max_parallel_requests(&mut self) -> (r: Result<(), GatewayError>)
        requires
            old(self).wf(),
        ensures
            final(self).wf(),
            final(self).spec_ceiling() == old(self).spec_ceiling(),
            r is Ok <==> old(self).spec_inflight() < old(self).spec_ceiling(),
            r is Ok ==> final(self).spec_inflight() == old(self).spec_inflight() + 1,
            r is Err ==> r->Err_0 == GatewayError::Admission && final(self).spec_inflight() == old(
                self,
            ).spec_inflight(),
    {
        if self.increase_number_of_parallel_requests() {
            Ok(())
        } else {
            Err(GatewayError::Admission)
        }
    }
}

} // verus!
