use vstd::prelude::*;
use crate::auth::{bearer_decision, has_bearer_prefix, header_view, validate_bearer_token};
use crate::status::Status;

verus! {

/// What a request addresses: the two liveness endpoints, or one of the two
/// resource collections.
#[derive(Clone, Copy, Debug, PartialEq, Eq, Structural)]
pub enum Resource {
    Root,
    Health,
    Containers,
    Services,
}

/// Whether requests to the resource must carry the bearer token.
pub open spec fn guarded(resource: Resource) -> bool {
    resource is Containers || resource is Services
}

/// The status that turns a request away before any resource logic runs, or
/// `None` where it may proceed.
pub open spec fn spec_gate(
    resource: Resource,
    expected: Seq<char>,
    header: Option<Seq<char>>,
) -> Option<Status> {
    if guarded(resource) {
        bearer_decision(expected, header).spec_rejection()
    } else {
        None
    }
}

/// Decides whether a request reaches its resource: the liveness endpoints are open, the
/// container and service collections require the configured token.
pub fn gate(resource: Resource, expected_token: &str, authorization: Option<&str>) -> (r:
    Option<Status>)
    ensures
        r == spec_gate(resource, expected_token@, header_view(authorization)),
{
    match resource {
        Resource::Root | Resource::Health => None,
        Resource::Containers | Resource::Services => validate_bearer_token(
            expected_token,
            authorization,
        ).rejection(),
    }
}

/// The body of the root liveness endpoint, served with 200.
pub fn root() -> (r: String)
    ensures
        r@ == "Hello, Podman Remote!"@,
{
    String::from_str("Hello, Podman Remote!")
}

/// The body of the health endpoint, served with 200.
pub fn health() -> (r: String)
    ensures
        r@ == "OK"@,
{
    String::from_str("OK")
}

/// On the container and service collections alike, a request without an
/// `Authorization` header, or with one not in the bearer scheme, is answered
/// with 401 and nothing else.
pub proof fn lemma_guarded_rejects_missing_or_malformed(
    resource: Resource,
    expected: Seq<char>,
    header: Option<Seq<char>>,
)
    requires
        guarded(resource),
        header is None || !has_bearer_prefix(header->0),
    ensures
        spec_gate(resource, expected, header) == Some(Status::Unauthorized),
{
}

/// The liveness endpoints let every request through, with or without an
/// `Authorization` header, valid or not.
pub proof fn lemma_liveness_always_admitted(expected: Seq<char>, header: Option<Seq<char>>)
    ensures
        spec_gate(Resource::Root, expected, header) is None,
        spec_gate(Resource::Health, expected, header) is None,
{
}

} // verus!
