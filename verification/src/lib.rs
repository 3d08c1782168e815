//! Invocation-envelope adapter for a function-as-a-service host that delivers
//! each call as a JSON envelope over local HTTP.
//!
//! The adapter decodes the host's inbound envelope into an ordinary request,
//! runs the downstream handler chain exactly once, collects a per-invocation
//! ordered log trail, and re-encodes the response together with the collected
//! logs into the outbound envelope shape the host expects.

mod adapter;
mod collector;
mod dates;
mod decode;
mod encode;
mod guard;
mod ipn;
mod jsonenc;
mod jsonval;
mod mailchimp;
mod observer;
mod strutil;

pub use collector::{
    clone_count, lemma_log_ordering, lemma_unique_ownership, logged, outstanding, prefixed_line,
    release_count, AzureFnLoggerExt, AzureFnLoggerInner, HandleEvent, OwnershipViolation,
};
pub use adapter::{
    default_config, inner_body_pointer, metadata_id_pointer, AzureFnMiddleware, DecodeError,
    DecodedInvocation, DeploymentConfig,
};
pub use dates::{
    date_text_shape, day_of_text, days_in_month, digit_val, is_dec_digit, is_leap_year,
    lemma_date_text_round_trip, mailchimp_date_text, month_of_text, pad2, pad4,
    parse_mailchimp_date, safe_add_year, today_ppt, valid_date, year_of_text, Date, DateError,
};
pub use decode::{
    apply_body_policy, body_not_found_line, body_wrong_type_line, missing_id_sentinel,
    resolve_invocation_id, resolved_id, IdSource,
};
pub use encode::{
    collapse_headers, collapsed_headers, encode_response, envelope_text, headers_view,
    join_header_values, joined_values, outputs_envelope, return_value_envelope, success_status,
    EncodedResponse, InnerResponse, OutboundShape,
};
pub use guard::{lemma_run_once, transform_count, RunOnceMarker};
pub use ipn::{
    classify_verification, payment_completed, txn_type_accepted, verification_body,
    IpnVerification,
};
pub use mailchimp::{
    decide_subscription, lower_of, mailchimp_member_path, md5_hex_of, member_path,
    membership_active, SubscriptionDecision,
};
pub use jsonval::{json_has_node, json_parses, json_string_at, node_string, JsonNode};
pub use observer::{
    detail_view, diag_line, is_client_error, is_server_error, ErrorDetail, LogMiddleware,
};
pub use jsonenc::{
    comma_sep_members, comma_sep_quoted, dec_digit, dec_rep, escape_char, escape_string,
    hex_digit, json_string_array, json_string_object, object_member, quoted,
};
pub use strutil::str_eq;
