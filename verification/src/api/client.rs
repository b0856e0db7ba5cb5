//! Decisions of the HTTP transport.
//!
//! The transport itself (reqwest, the governor rate limiter, tokio
//! sleeps) runs outside the library; what it decides is here:
//! - how a response status is handled,
//! - whether and how long to wait after a 429 (at most 3 attempts,
//!   `Retry-After` honoured and capped at 30 s),
//! - how a streamed body is accumulated under the size cap.

use vstd::prelude::*;

use crate::api::error::ApiError;
use crate::api::version::NOTION_API_BASE;
use crate::foreign::{duration_from_secs, duration_of_secs};
use crate::config::NotionToken;
use crate::text::{chars_of, concat, owned, parse_u64, parse_u64_spec};

verus! {

pub const MAX_RESPONSE_BYTES: usize = 10485760;

pub const MAX_RETRY_ATTEMPTS: u32 = 3;

pub const DEFAULT_RATE_LIMIT_PER_SEC: u32 = 3;

/// Longest wait honoured after a 429, in seconds.
pub const MAX_RETRY_WAIT_SECS: u64 = 30;

/// Transport settings.
pub struct ClientConfig {
    pub base_url: String,
    pub connect_timeout: std::time::Duration,
    pub total_timeout: std::time::Duration,
    pub max_response_bytes: usize,
    /// Requests per second; never zero in a well-formed config.
    pub rate_limit_per_sec: u32,
}

impl ClientConfig {
    /// A quota of zero requests per second cannot be honoured.
    pub open spec fn wf(&self) -> bool {
        self.rate_limit_per_sec > 0
    }
}

impl Default for ClientConfig {
    fn default() -> (c: Self)
        ensures
            c.base_url@ == NOTION_API_BASE@,
            c.connect_timeout == duration_of_secs(10),
            c.total_timeout == duration_of_secs(60),
            c.max_response_bytes == MAX_RESPONSE_BYTES,
            c.rate_limit_per_sec == DEFAULT_RATE_LIMIT_PER_SEC,
            c.wf(),
    {
        ClientConfig {
            base_url: owned(NOTION_API_BASE),
            connect_timeout: duration_from_secs(10),
            total_timeout: duration_from_secs(60),
            max_response_bytes: MAX_RESPONSE_BYTES,
            rate_limit_per_sec: DEFAULT_RATE_LIMIT_PER_SEC,
        }
    }
}

// === Status handling =======================================================

/// How the transport treats a response, by status code.
#[derive(Debug, PartialEq, Eq, Structural, Clone, Copy)]
pub enum ResponseKind {
    /// 429: retry after the advertised delay.
    RateLimited,
    /// 2xx: decode the body as the expected type.
    Success,
    /// Anything else: map the body to an [`ApiError`].
    Failure,
}

pub open spec fn response_kind_spec(status: u16) -> ResponseKind {
    if status == 429 {
        ResponseKind::RateLimited
    } else if 200 <= status && status < 300 {
        ResponseKind::Success
    } else {
        ResponseKind::Failure
    }
}

pub fn response_kind(status: u16) -> (k: ResponseKind)
    ensures
        k == response_kind_spec(status),
{
    if status == 429 {
        ResponseKind::RateLimited
    } else if 200 <= status && status < 300 {
        ResponseKind::Success
    } else {
        ResponseKind::Failure
    }
}

/// The `Retry-After` seconds of a 429, from the header's text (`None`
/// when the header is absent or is not a plain number of seconds).
pub fn parse_retry_after(header: Option<&str>) -> (r: Option<u64>)
    ensures
        match header {
            Some(h) => r == parse_u64_spec(h@),
            None => r is None,
        },
{
    match header {
        Some(h) => parse_u64(&chars_of(h)),
        None => None,
    }
}

// === Retry =================================================================

/// Seconds to wait before the next attempt, after attempt number
/// `attempt` (counting from 1) was rate limited; `None` once the
/// attempts are used up.
pub open spec fn retry_wait_spec(attempt: u32, retry_after: Option<u64>) -> Option<u64> {
    if attempt < MAX_RETRY_ATTEMPTS {
        let asked = match retry_after {
            Some(s) => s,
            None => 1,
        };
        Some(if asked < MAX_RETRY_WAIT_SECS { asked } else { MAX_RETRY_WAIT_SECS })
    } else {
        None
    }
}

pub fn retry_wait(attempt: u32, retry_after: Option<u64>) -> (r: Option<u64>)
    ensures
        r == retry_wait_spec(attempt, retry_after),
{
    if attempt < MAX_RETRY_ATTEMPTS {
        let asked = match retry_after {
            Some(s) => s,
            None => 1,
        };
        Some(if asked < MAX_RETRY_WAIT_SECS { asked } else { MAX_RETRY_WAIT_SECS })
    } else {
        None
    }
}

/// The request loop never makes more than three attempts, and never
/// waits longer than 30 s between two of them.
pub proof fn law_retry_bounded(attempt: u32, retry_after: Option<u64>)
    ensures
        retry_wait_spec(attempt, retry_after) is Some <==> attempt < 3,
        retry_wait_spec(attempt, retry_after) matches Some(w) ==> w <= 30,
{
}

/// Whether an outcome of one attempt was rate limited, and with what
/// `Retry-After`: `Some(retry_after)` for a 429, `None` otherwise.
pub open spec fn rate_limit_of(outcome: Result<serde_json::Value, ApiError>) -> Option<Option<u64>> {
    match outcome {
        Err(ApiError::RateLimited { retry_after }) => Some(retry_after),
        _ => None,
    }
}

/// After attempt `attempt` with the given rate-limit signal: the wait
/// before the next attempt, or `None` to return the outcome.
pub open spec fn retry_decision_spec(attempt: u32, rate_limited: Option<Option<u64>>) -> Option<u64> {
    match rate_limited {
        Some(retry_after) => retry_wait_spec(attempt, retry_after),
        None => None,
    }
}

/// What the request loop does with the outcome of attempt number
/// `attempt` (counting from 1): only a rate-limited outcome is retried,
/// after the wait returned, and only while attempts are left; `None`
/// means the outcome is returned as it is.
pub fn retry_decision(attempt: u32, outcome: &Result<serde_json::Value, ApiError>) -> (r: Option<u64>)
    ensures
        r == retry_decision_spec(attempt, rate_limit_of(*outcome)),
{
    match outcome {
        Err(ApiError::RateLimited { retry_after }) => retry_wait(attempt, *retry_after),
        _ => None,
    }
}

/// The request loop over the outcomes its attempts would get
/// (`outcomes[i]` the rate-limit signal of attempt `i + 1`), from
/// attempt `attempt` on: the number of the attempt whose outcome is
/// returned, and the waits slept before the attempts after `attempt`.
pub open spec fn retry_loop(outcomes: Seq<Option<Option<u64>>>, attempt: u32) -> (u32, Seq<u64>)
    decreases MAX_RETRY_ATTEMPTS - attempt,
{
    if attempt < 1 || attempt > outcomes.len() || attempt >= MAX_RETRY_ATTEMPTS {
        (attempt, Seq::empty())
    } else {
        match retry_decision_spec(attempt, outcomes[attempt - 1]) {
            Some(w) => {
                let (k, ws) = retry_loop(outcomes, (attempt + 1) as u32);
                (k, seq![w] + ws)
            },
            None => (attempt, Seq::empty()),
        }
    }
}

/// The retry law of the request loop, over any outcomes the network
/// gives: the outcome returned is that of the first attempt that was
/// not rate limited, or of the third attempt when all three were; a
/// wait of `min(Retry-After or 1, 30)` seconds comes before each
/// further attempt, none after the last, so the loop sleeps at most
/// 60 s in all.
pub proof fn law_retry_loop(outcomes: Seq<Option<Option<u64>>>)
    requires
        outcomes.len() >= 3,
    ensures
        ({
            let (k, ws) = retry_loop(outcomes, 1);
            &&& 1 <= k <= 3
            &&& forall|j: int| 0 <= j < k - 1 ==> (#[trigger] outcomes[j]) is Some
            &&& k < 3 ==> outcomes[k - 1] is None
            &&& ws.len() == k - 1
            &&& forall|j: int| 0 <= j < ws.len() ==> #[trigger] ws[j] == (match outcomes[j] {
                Some(Some(s)) => if s < 30 { s } else { 30 },
                _ => 1,
            })
            &&& forall|j: int| 0 <= j < ws.len() ==> #[trigger] ws[j] <= 30
        }),
{
    let (k2, ws2) = retry_loop(outcomes, 2);
    let (k3, ws3) = retry_loop(outcomes, 3);
    assert(k3 == 3 && ws3.len() == 0);
    if outcomes[1] is Some {
        assert(k2 == 3 && ws2.len() == 1);
    } else {
        assert(k2 == 2 && ws2.len() == 0);
    }
}

// === Capped body ===========================================================

/// A response body being read chunk by chunk, never longer than its
/// limit.
pub struct CappedBody {
    buf: Vec<u8>,
    limit: usize,
}

impl View for CappedBody {
    type V = (Seq<u8>, usize);

    closed spec fn view(&self) -> (Seq<u8>, usize) {
        (self.buf@, self.limit)
    }
}

impl CappedBody {
    #[verifier::type_invariant]
    closed spec fn inv(self) -> bool {
        self.buf@.len() <= self.limit
    }

    /// Start reading a body; refused up front when the advertised
    /// `Content-Length` already exceeds the limit.
    pub fn start(limit: usize, content_length: Option<u64>) -> (r: Result<Self, ApiError>)
        ensures
            match r {
                Ok(b) => b@ == (Seq::<u8>::empty(), limit) && !(content_length matches Some(n)
                    && n > limit),
                Err(e) => (content_length matches Some(n) && n > limit) && e == (
                ApiError::BodyTooLarge { limit_bytes: limit }),
            },
    {
        match content_length {
            Some(n) => {
                if n > limit as u64 {
                    return Err(ApiError::BodyTooLarge { limit_bytes: limit });
                }
            },
            None => {},
        }
        Ok(CappedBody { buf: Vec::new(), limit })
    }

    /// Add a chunk; refused (body unchanged) when the total would pass
    /// the limit.
    pub fn push_chunk(&mut self, chunk: &[u8]) -> (r: Result<(), ApiError>)
        ensures
            final(self)@.1 == old(self)@.1,
            old(self)@.0.len() + chunk@.len() <= old(self)@.1 ==> r is Ok && final(self)@.0
                == old(self)@.0 + chunk@,
            old(self)@.0.len() + chunk@.len() > old(self)@.1 ==> r == Err::<(), ApiError>(
                ApiError::BodyTooLarge { limit_bytes: old(self)@.1 },
            ) && final(self)@.0 == old(self)@.0,
            final(self)@.0.len() <= final(self)@.1,
    {
        proof {
            use_type_invariant(&*self);
        }
        let have = self.buf.len();
        // `have <= limit`, so this is `have + chunk.len() > limit` without overflow.
        if chunk.len() > self.limit - have {
            return Err(ApiError::BodyTooLarge { limit_bytes: self.limit });
        }
        let mut next = self.buf.clone();
        let mut i: usize = 0;
        let ghost start = self.buf@;
        while i < chunk.len()
            invariant
                i <= chunk.len(),
                next@ == start + chunk@.subrange(0, i as int),
                start.len() + chunk@.len() <= self.limit,
                start == self.buf@,
            decreases chunk.len() - i,
        {
            next.push(chunk[i]);
            i = i + 1;
            assert(next@ =~= start + chunk@.subrange(0, i as int));
        }
        assert(chunk@.subrange(0, chunk@.len() as int) =~= chunk@);
        self.buf = next;
        Ok(())
    }

    /// The bytes read so far.
    pub fn into_bytes(self) -> (b: Vec<u8>)
        ensures
            b@ == self@.0,
            b@.len() <= self@.1,
    {
        proof {
            use_type_invariant(&self);
        }
        self.buf
    }
}

// === Requests ==============================================================

/// The URL of an API path: `<base>/v1<path>`.
pub fn request_url(base_url: &str, path: &str) -> (u: String)
    ensures
        u@ == base_url@ + "/v1"@ + path@,
{
    let mut u = concat(base_url, "/v1");
    u.append(path);
    u
}

/// The `Authorization` header's value: `Bearer <token>`.
pub fn bearer_value(token: &NotionToken) -> (v: String)
    ensures
        v@ == "Bearer "@ + token@,
{
    concat("Bearer ", token.expose())
}

/// The kind a transport failure is reported under, by what failed
/// first: a timeout, the connection, decoding, the body, or else other.
pub fn network_kind(timeout: bool, connect: bool, decode: bool, body: bool) -> (k: &'static str)
    ensures
        timeout ==> k@ == "timeout"@,
        !timeout && connect ==> k@ == "connect"@,
        !timeout && !connect && decode ==> k@ == "decode"@,
        !timeout && !connect && !decode && body ==> k@ == "body"@,
        !timeout && !connect && !decode && !body ==> k@ == "other"@,
{
    if timeout {
        "timeout"
    } else if connect {
        "connect"
    } else if decode {
        "decode"
    } else if body {
        "body"
    } else {
        "other"
    }
}

} // verus!
