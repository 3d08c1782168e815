//! The envelope adapter middleware: one type that decodes the inbound
//! envelope, hands the pipeline an ordinary request plus a log collector,
//! and re-encodes the pipeline's response into the outbound envelope.
//!
//! The canonical deployment reads the invocation id from the envelope's
//! metadata pointer and answers in the `Outputs` shape; the transport
//! header id and the `ReturnValue` shape are kept as configurable legacy
//! variants. Exactly one shape is canonical per deployment — the adapter
//! never mixes extraction strategies within one request.

use vstd::prelude::*;

use crate::collector::{logged, AzureFnLoggerExt, AzureFnLoggerInner, OwnershipViolation};
use crate::decode::{
    apply_body_policy, body_not_found_line, body_wrong_type_line, resolve_invocation_id,
    resolved_id, IdSource,
};
use crate::encode::{
    encode_response, envelope_text, headers_view, success_status, EncodedResponse, InnerResponse,
    OutboundShape,
};
use crate::jsonval::{
    json_has_node, json_parses, json_string_at, json_well_formed, node_at, node_string,
};

verus! {

/// The envelope shape and id placement a deployment is configured for,
/// and whether the outward status is forced to success so the host does
/// not drop the log payload.
#[derive(Debug, Clone, Copy, PartialEq, Eq, Structural)]
pub struct DeploymentConfig {
    pub id_source: IdSource,
    pub outbound_shape: OutboundShape,
    pub force_success_status: bool,
}

/// The canonical deployment: id at the metadata pointer, `Outputs` shape,
/// faithful status propagation.
pub open spec fn default_config() -> DeploymentConfig {
    DeploymentConfig {
        id_source: IdSource::MetadataPath,
        outbound_shape: OutboundShape::Outputs,
        force_success_status: false,
    }
}

/// A decoded invocation: the inner request body the pipeline should see,
/// and the collector installed for the request, ready to be shared with
/// the pipeline.
#[derive(Debug)]
pub struct DecodedInvocation {
    pub inner_body: String,
    pub logger: AzureFnLoggerInner,
}

/// Why decoding an envelope failed. A malformed envelope is terminal: no
/// inner request can be recovered from it.
#[derive(Debug, PartialEq, Eq, Structural)]
pub enum DecodeError {
    /// The inbound body does not parse as JSON.
    MalformedJson,
}

/// The JSON pointer at which the envelope carries the invocation id.
pub open spec fn metadata_id_pointer() -> Seq<char> {
    "/Metadata/Id"@
}

/// The JSON pointer at which the envelope carries the inner request body.
pub open spec fn inner_body_pointer() -> Seq<char> {
    "/Data/req/Body"@
}

/// Middleware that rewrites requests to and from the host's invocation
/// envelopes, so that ordinary handler code can run behind a host that
/// only speaks the envelope transport.
///
/// The host-side binding configuration must name the input and output
/// binding `req` and `res`, matching the paths inside the envelope.
#[derive(Debug, Clone, Copy)]
pub struct AzureFnMiddleware {
    config: DeploymentConfig,
}

impl AzureFnMiddleware {
    /// The deployment configuration this adapter was mounted with.
    pub closed spec fn spec_config(self) -> DeploymentConfig {
        self.config
    }

    /// Create a new instance of `AzureFnMiddleware` for the canonical
    /// deployment.
    pub fn new() -> (r: Self)
        ensures
            r.spec_config() == default_config(),
    {
        AzureFnMiddleware {
            config: DeploymentConfig {
                id_source: IdSource::MetadataPath,
                outbound_shape: OutboundShape::Outputs,
                force_success_status: false,
            },
        }
    }

    /// Create an adapter for a given deployment variant.
    pub fn with_config(config: DeploymentConfig) -> (r: Self)
        ensures
            r.spec_config() == config,
    {
        AzureFnMiddleware { config }
    }

    /// The deployment configuration, readable for the surrounding server
    /// code.
    pub fn config(&self) -> (r: DeploymentConfig)
        ensures
            r == self.spec_config(),
    {
        self.config
    }

    /// Decode an inbound envelope.
    ///
    /// Succeeds exactly when the body parses as JSON; nothing else is
    /// fatal. The invocation id comes from the configured source, with
    /// the sentinel as fallback; a string at the inner-body pointer
    /// replaces the request body, and anything else keeps the outer body
    /// and logs exactly one diagnostic saying whether the pointer found a
    /// value of the wrong type or nothing at all. The collector comes
    /// back with the resolved id and no shared handles.
    pub fn decode(&self, raw_body: &str, header_id: Option<String>) -> (r: Result<
        DecodedInvocation,
        DecodeError,
    >)
        ensures
            r is Ok <==> json_parses(raw_body@),
            r matches Err(e) ==> e is MalformedJson,
            r matches Ok(d) ==> {
                &&& d.logger.handles() == 0
                &&& d.logger.id() == resolved_id(
                    self.spec_config().id_source,
                    match header_id {
                        Some(h) => Some(h@),
                        None => None,
                    },
                    json_string_at(raw_body@, metadata_id_pointer()),
                )
                &&& match json_string_at(raw_body@, inner_body_pointer()) {
                    Some(t) => d.inner_body@ == t && d.logger.lines()
                        == Seq::<Seq<char>>::empty(),
                    None => d.inner_body@ == raw_body@ && d.logger.lines() == logged(
                        Seq::<Seq<char>>::empty(),
                        d.logger.id(),
                        if json_has_node(raw_body@, inner_body_pointer()) {
                            body_wrong_type_line()
                        } else {
                            body_not_found_line()
                        },
                    ),
                }
            },
    {
        if !json_well_formed(raw_body) {
            return Err(DecodeError::MalformedJson);
        }
        let metadata_id = node_at(raw_body, "/Metadata/Id");
        let body_node = node_at(raw_body, "/Data/req/Body");
        let ghost body_node_snapshot = body_node;
        let id = resolve_invocation_id(self.config.id_source, &header_id, &metadata_id);
        let mut logger = AzureFnLoggerInner::new(id);
        let inner_body = apply_body_policy(body_node, raw_body, &mut logger);
        proof {
            assert(node_string(metadata_id) == json_string_at(
                raw_body@,
                metadata_id_pointer(),
            ));
            assert(node_string(body_node_snapshot) == json_string_at(
                raw_body@,
                inner_body_pointer(),
            ));
        }
        Ok(DecodedInvocation { inner_body, logger })
    }

    /// Encode the pipeline's response, draining the collector.
    ///
    /// Sole ownership of the collector is required; an outstanding shared
    /// handle is the fatal ownership violation. On success the reply body
    /// is exactly the envelope text for the configured shape and the
    /// outward status follows the status-override policy.
    pub fn encode(&self, resp: InnerResponse, logger: AzureFnLoggerInner) -> (r: Result<
        EncodedResponse,
        OwnershipViolation,
    >)
        ensures
            r is Ok <==> logger.handles() == 0,
            r matches Ok(e) ==> {
                &&& e.status == (if self.spec_config().force_success_status {
                    success_status()
                } else {
                    resp.status
                })
                &&& e.body@ == envelope_text(
                    self.spec_config().outbound_shape,
                    resp.status as nat,
                    headers_view(resp.headers@),
                    resp.body@,
                    logger.lines(),
                )
                &&& e.content_type@ == "application/json"@
            },
    {
        encode_response(
            self.config.outbound_shape,
            self.config.force_success_status,
            resp,
            logger,
        )
    }
}

impl Default for AzureFnMiddleware {
    /// The adapter for the canonical deployment.
    fn default() -> (r: Self)
        ensures
            r.spec_config() == default_config(),
    {
        AzureFnMiddleware::new()
    }
}

} // verus!
