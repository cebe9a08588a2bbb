//! API-key check of the authenticated endpoints.
use vstd::prelude::*;
use subtle::ConstantTimeEq;

verus! {

/// `subtle`'s `ConstantTimeEq::ct_eq` on byte slices, converted to `bool`.
/// The crate's source returns a `Choice` of 1 exactly when both slices have
/// the same length and the same bytes (it short-circuits on the lengths
/// only), so the result is byte-wise equality.
#[verifier::external_body]
fn constant_time_eq(a: &[u8], b: &[u8]) -> (r: bool)
    ensures
        r == (a@ == b@),
{
    a.ct_eq(b).into()
}

/// What the `X-Api-Key` check decides about a request.
#[derive(Debug, Clone, Copy, PartialEq, Eq, Structural)]
pub enum AuthDecision {
    /// The key matches: the request goes through.
    Allow,
    /// A key was sent and does not match: 401 "invalid API key".
    InvalidKey,
    /// No usable key was sent: 401 "X-Api-Key header required".
    MissingKey,
}

pub const STATUS_UNAUTHORIZED: u16 = 401;

/// The decision for a request whose `X-Api-Key` header reads `provided`
/// (`None` when the header is absent or is not visible ASCII), against the
/// configured key. The comparison runs in constant time over the bytes.
pub fn require_api_key(provided: Option<&str>, expected: &str) -> (r: AuthDecision)
    ensures
        match provided {
            None => r == AuthDecision::MissingKey,
            Some(k) => r == (if k@ == expected@ { AuthDecision::Allow } else { AuthDecision::InvalidKey }),
        },
{
    match provided {
        None => AuthDecision::MissingKey,
        Some(k) => {
            let same = constant_time_eq(k.as_bytes(), expected.as_bytes());
            proof {
                vstd::utf8::encode_utf8_decode_utf8(k@);
                vstd::utf8::encode_utf8_decode_utf8(expected@);
            }
            if same {
                AuthDecision::Allow
            } else {
                AuthDecision::InvalidKey
            }
        },
    }
}

impl AuthDecision {
    /// The 401 message of a rejected request; `None` when the request goes through.
    pub fn rejection_message(&self) -> (r: Option<String>)
        ensures
            match self {
                AuthDecision::Allow => r is None,
                AuthDecision::InvalidKey => r matches Some(m) && m@ == "invalid API key"@,
                AuthDecision::MissingKey => r matches Some(m) && m@ == "X-Api-Key header required"@,
            },
    {
        match self {
            AuthDecision::Allow => None,
            AuthDecision::InvalidKey => Some(String::from_str("invalid API key")),
            AuthDecision::MissingKey => Some(String::from_str("X-Api-Key header required")),
        }
    }
}

} // verus!
