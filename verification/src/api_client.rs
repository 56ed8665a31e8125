//! The model API client: profiles, and how failed requests are classified.

use vstd::prelude::*;

use crate::stream_error::{ConverseStreamError, ConverseStreamErrorKind};
use vstd::string::StringSliceAdditionalSpecFns;

verus! {

/// A profile of the service.
#[derive(Debug, Clone, PartialEq, Eq)]
pub struct AuthProfile {
    pub arn: String,
    pub profile_name: String,
}

/// Whether `needle` occurs in `haystack`.
pub open spec fn bytes_contain(haystack: Seq<u8>, needle: Seq<u8>) -> bool {
    exists|i: int|
        0 <= i && i + needle.len() <= haystack.len() && #[trigger] haystack.subrange(i, i + needle.len()) == needle
}

/// Whether `needle` occurs in `haystack`.
pub fn contains_bytes(haystack: &[u8], needle: &[u8]) -> (res: bool)
    ensures
        res == bytes_contain(haystack@, needle@),
{
    let n = needle.len();
    if n > haystack.len() {
        return false;
    }
    let mut i: usize = 0;
    let last = haystack.len() - n;
    while i <= last
        invariant
            n == needle@.len(),
            n <= haystack@.len(),
            last == haystack@.len() - n,
            i <= last + 1,
            forall|k: int| 0 <= k < i ==> #[trigger] haystack@.subrange(k, k + n as int) != needle@,
        decreases haystack.len() - i,
    {
        let mut j: usize = 0;
        let mut same = true;
        while j < n
            invariant
                n == needle@.len(),
                i + n <= haystack@.len(),
                haystack@.len() == haystack.len(),
                j <= n,
                same == forall|t: int| 0 <= t < j ==> haystack@[i + t] == needle@[t],
            decreases n - j,
        {
            if haystack[i + j] != needle[j] {
                same = false;
            }
            j = j + 1;
        }
        if same {
            assert(haystack@.subrange(i as int, i + n as int) =~= needle@);
            return true;
        }
        proof {
            let t = choose|t: int| 0 <= t < n && haystack@[i + t] != needle@[t];
            assert(haystack@.subrange(i as int, i + n as int)[t] != needle@[t]);
        }
        i = i + 1;
    }
    proof {
        assert forall|k: int| 0 <= k && k + needle@.len() <= haystack@.len() implies #[trigger] haystack@.subrange(
            k,
            k + needle@.len(),
        ) != needle@ by {
            assert(k < i);
        }
    }
    false
}

/// How a failed request is classified from its status code and response body: an input
/// too long overflows the context window; a lack of model capacity (or a 500 reporting
/// high load) means the model is overloaded; a 429 otherwise means throttling; and the
/// monthly request count means the monthly limit was reached.
pub open spec fn error_kind_of(
    status_code: Option<u16>,
    body: Seq<u8>,
    too_long: Seq<u8>,
    capacity: Seq<u8>,
    high_load: Seq<u8>,
    monthly: Seq<u8>,
) -> ConverseStreamErrorKind {
    if bytes_contain(body, too_long) {
        ConverseStreamErrorKind::ContextWindowOverflow
    } else if bytes_contain(body, capacity) || (status_code == Some(500u16) && bytes_contain(body, high_load)) {
        ConverseStreamErrorKind::ModelOverloadedError
    } else if status_code == Some(429u16) {
        ConverseStreamErrorKind::Throttling
    } else if bytes_contain(body, monthly) {
        ConverseStreamErrorKind::MonthlyLimitReached
    } else {
        ConverseStreamErrorKind::Unknown
    }
}

/// Classifies a failed request from its status code and response body (see
/// [error_kind_of]).
pub fn classify_error_kind(status_code: Option<u16>, body: &[u8]) -> (res: ConverseStreamErrorKind)
    ensures
        res == error_kind_of(
            status_code,
            body@,
            "Input is too long.".spec_bytes(),
            "INSUFFICIENT_MODEL_CAPACITY".spec_bytes(),
            "Encountered unexpectedly high load when processing the request, please try again.".spec_bytes(),
            "MONTHLY_REQUEST_COUNT".spec_bytes(),
        ),
{
    let too_long = "Input is too long.".as_bytes();
    let capacity = "INSUFFICIENT_MODEL_CAPACITY".as_bytes();
    let high_load = "Encountered unexpectedly high load when processing the request, please try again.".as_bytes();
    let monthly = "MONTHLY_REQUEST_COUNT".as_bytes();
    let is_throttling = match status_code {
        Some(s) => s == 429,
        None => false,
    };
    let is_context_window_overflow = contains_bytes(body, too_long);
    let is_model_unavailable = contains_bytes(body, capacity) || (match status_code {
        Some(s) => s == 500,
        None => false,
    } && contains_bytes(body, high_load));
    let is_monthly_limit_err = contains_bytes(body, monthly);
    if is_context_window_overflow {
        return ConverseStreamErrorKind::ContextWindowOverflow;
    }
    if is_model_unavailable {
        return ConverseStreamErrorKind::ModelOverloadedError;
    }
    if is_throttling {
        return ConverseStreamErrorKind::Throttling;
    }
    if is_monthly_limit_err {
        return ConverseStreamErrorKind::MonthlyLimitReached;
    }
    ConverseStreamErrorKind::Unknown
}

/// The error for a failed send of a message: classified by its status code and response body,
/// carrying the request id, the status code and the SDK error's message.
pub fn failed_send_error(
    request_id: Option<String>,
    status_code: Option<u16>,
    body: &[u8],
    source: Option<String>,
) -> (res: ConverseStreamError)
    ensures
        res.kind == error_kind_of(
            status_code,
            body@,
            "Input is too long.".spec_bytes(),
            "INSUFFICIENT_MODEL_CAPACITY".spec_bytes(),
            "Encountered unexpectedly high load when processing the request, please try again.".spec_bytes(),
            "MONTHLY_REQUEST_COUNT".spec_bytes(),
        ),
        res.request_id == request_id,
        res.status_code == status_code,
        res.source == source,
{
    ConverseStreamError::new(classify_error_kind(status_code, body), source).set_request_id(request_id).set_status_code(
        status_code,
    )
}

} // verus!
