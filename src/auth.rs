use vstd::prelude::*;
use crate::status::Status;

verus! {

/// Why a request was turned away; for the operator's log only, never for the client.
#[derive(Clone, Copy, Debug, PartialEq, Eq, Structural)]
pub enum RejectReason {
    MissingHeader,
    MalformedScheme,
    InvalidToken,
}

/// The outcome of the bearer-token check of one request.
#[derive(Clone, Copy, Debug, PartialEq, Eq, Structural)]
pub enum AuthDecision {
    Authorized,
    Rejected(RejectReason),
}

/// The literal scheme prefix `"Bearer "`.
pub open spec fn bearer_prefix() -> Seq<char> {
    seq!['B', 'e', 'a', 'r', 'e', 'r', ' ']
}

pub open spec fn has_bearer_prefix(h: Seq<char>) -> bool {
    h.len() >= bearer_prefix().len() && h.subrange(0, bearer_prefix().len() as int)
        == bearer_prefix()
}

/// What follows the scheme prefix in a header value.
pub open spec fn bearer_candidate(h: Seq<char>) -> Seq<char> {
    h.subrange(bearer_prefix().len() as int, h.len() as int)
}

/// The decision for an `Authorization` header value (`None` when the request has
/// none, or none readable as text) against the configured token. An empty
/// configured token admits nobody.
pub open spec fn bearer_decision(expected: Seq<char>, header: Option<Seq<char>>) -> AuthDecision {
    match header {
        None => AuthDecision::Rejected(RejectReason::MissingHeader),
        Some(h) => if !has_bearer_prefix(h) {
            AuthDecision::Rejected(RejectReason::MalformedScheme)
        } else if expected.len() > 0 && bearer_candidate(h) == expected {
            AuthDecision::Authorized
        } else {
            AuthDecision::Rejected(RejectReason::InvalidToken)
        },
    }
}

pub open spec fn header_view(header: Option<&str>) -> Option<Seq<char>> {
    match header {
        Some(h) => Some(h@),
        None => None,
    }
}

impl AuthDecision {
    pub open spec fn spec_rejection(self) -> Option<Status> {
        match self {
            AuthDecision::Authorized => None,
            AuthDecision::Rejected(_) => Some(Status::Unauthorized),
        }
    }

    /// The status to answer with, with an empty body, when the request is turned
    /// away; `None` when it may proceed unchanged.
    pub fn rejection(&self) -> (r: Option<Status>)
        ensures
            r == self.spec_rejection(),
    {
        match self {
            AuthDecision::Authorized => None,
            AuthDecision::Rejected(_) => Some(Status::Unauthorized),
        }
    }
}

/// Checks an `Authorization` header value against the configured token.
pub fn validate_bearer_token(expected_token: &str, authorization: Option<&str>) -> (r:
    AuthDecision)
    ensures
        r == bearer_decision(expected_token@, header_view(authorization)),
{
    match authorization {
        None => AuthDecision::Rejected(RejectReason::MissingHeader),
        Some(h) => {
            let scheme = "Bearer ";
            proof {
                reveal_strlit("Bearer ");
                assert(scheme@ =~= bearer_prefix());
            }
            let n = h.unicode_len();
            if n < 7 {
                return AuthDecision::Rejected(RejectReason::MalformedScheme);
            }
            let head = String::from_str(h.substring_char(0, 7));
            if !(head == String::from_str(scheme)) {
                return AuthDecision::Rejected(RejectReason::MalformedScheme);
            }
            let candidate = String::from_str(h.substring_char(7, n));
            let expected = String::from_str(expected_token);
            if expected_token.unicode_len() > 0 && candidate == expected {
                AuthDecision::Authorized
            } else {
                AuthDecision::Rejected(RejectReason::InvalidToken)
            }
        },
    }
}

/// A request without an `Authorization` header, or with one that does not begin
/// with the `"Bearer "` scheme, is turned away with 401, whatever the token.
pub proof fn lemma_missing_or_malformed_rejected(expected: Seq<char>, header: Option<Seq<char>>)
    requires
        header is None || !has_bearer_prefix(header->0),
    ensures
        bearer_decision(expected, header) is Rejected,
        bearer_decision(expected, header).spec_rejection() == Some(Status::Unauthorized),
{
}

/// `"Bearer "` followed by a candidate token is admitted exactly when the
/// candidate is the configured token and that token is not empty; any other
/// candidate, one that differs in a single character included, is turned away.
pub proof fn lemma_only_configured_token_admitted(expected: Seq<char>, candidate: Seq<char>)
    ensures
        (bearer_decision(expected, Some(bearer_prefix() + candidate)) is Authorized) <==> (
        candidate == expected && expected.len() > 0),
{
    let h = bearer_prefix() + candidate;
    assert(h.subrange(0, 7) =~= bearer_prefix());
    assert(bearer_candidate(h) =~= candidate);
}

} // verus!
