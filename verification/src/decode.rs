//! Envelope decoding policy: resolving the invocation id and extracting the
//! inner request body from the inbound envelope.
//!
//! Parsing the envelope is the JSON library's work; everything the adapter
//! decides about the parsed values — which id to use, when to fall back to
//! the sentinel, when to keep the outer body and what diagnostic to log —
//! is specified and verified here.

use vstd::prelude::*;

use crate::collector::{logged, AzureFnLoggerExt, AzureFnLoggerInner};
use crate::jsonval::{node_string, JsonNode};

verus! {

/// Where a deployment carries the invocation id.
#[derive(Debug, Clone, Copy, PartialEq, Eq, Structural)]
pub enum IdSource {
    /// In the transport header the host sets on each call.
    TransportHeader,
    /// Inside the envelope, at the fixed metadata pointer.
    MetadataPath,
}

/// The sentinel used when no invocation id can be found. Decoding never
/// fails solely because the id is missing.
pub open spec fn missing_id_sentinel() -> Seq<char> {
    "(id missing)"@
}

/// The diagnostic logged when the envelope has no value at the inner-body
/// pointer.
pub open spec fn body_not_found_line() -> Seq<char> {
    "AzureFnMiddleware Error: \"/Data/req/Body\" not found, check function.json"@
}

/// The diagnostic logged when the value at the inner-body pointer is not a
/// string.
pub open spec fn body_wrong_type_line() -> Seq<char> {
    "AzureFnMiddleware Error: \"/Data/req/Body\" not a String, check function.json"@
}

/// The invocation id a deployment resolves: its configured source if that
/// source carries a string, the sentinel otherwise. The two sources are
/// never mixed within one request.
pub open spec fn resolved_id(
    id_source: IdSource,
    header: Option<Seq<char>>,
    metadata_string: Option<Seq<char>>,
) -> Seq<char> {
    match id_source {
        IdSource::TransportHeader => match header {
            Some(h) => h,
            None => missing_id_sentinel(),
        },
        IdSource::MetadataPath => match metadata_string {
            Some(s) => s,
            None => missing_id_sentinel(),
        },
    }
}

/// Resolve the invocation id from the configured source.
pub fn resolve_invocation_id(
    id_source: IdSource,
    header_id: &Option<String>,
    metadata_id: &JsonNode,
) -> (r: String)
    ensures
        r@ == resolved_id(
            id_source,
            match header_id {
                Some(h) => Some(h@),
                None => None,
            },
            node_string(*metadata_id),
        ),
{
    match id_source {
        IdSource::TransportHeader => match header_id {
            Some(h) => h.clone(),
            None => "(id missing)".to_owned(),
        },
        IdSource::MetadataPath => match metadata_id {
            JsonNode::Text(s) => s.clone(),
            _ => "(id missing)".to_owned(),
        },
    }
}

/// The inner-body policy: a string at the inner-body pointer replaces the
/// request body; anything else keeps the outer body and logs exactly one
/// diagnostic, so that host configuration drift degrades the request
/// instead of failing it.
pub fn apply_body_policy(node: JsonNode, outer_body: &str, logger: &mut AzureFnLoggerInner) -> (r:
    String)
    ensures
        node matches JsonNode::Text(s) ==> r@ == s@ && final(logger).lines() == old(
            logger,
        ).lines(),
        node is Other ==> r@ == outer_body@ && final(logger).lines() == logged(
            old(logger).lines(),
            old(logger).id(),
            body_wrong_type_line(),
        ),
        node is Absent ==> r@ == outer_body@ && final(logger).lines() == logged(
            old(logger).lines(),
            old(logger).id(),
            body_not_found_line(),
        ),
        final(logger).id() == old(logger).id(),
        final(logger).handles() == old(logger).handles(),
{
    match node {
        JsonNode::Text(s) => s,
        JsonNode::Other => {
            logger.log(
                "AzureFnMiddleware Error: \"/Data/req/Body\" not a String, check function.json".to_owned(),
            );
            outer_body.to_owned()
        },
        JsonNode::Absent => {
            logger.log(
                "AzureFnMiddleware Error: \"/Data/req/Body\" not found, check function.json".to_owned(),
            );
            outer_body.to_owned()
        },
    }
}

} // verus!
