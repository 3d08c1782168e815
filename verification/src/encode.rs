//! Envelope encoding: draining the collector and rewriting the pipeline's
//! response into the outbound envelope the host expects.
//!
//! The outbound document is this adapter's own wire format; its exact text
//! is specified here and the encoder is proved to produce it. The host
//! silently drops the log payload for any transport-level status other
//! than success, so the encoder can be configured to force the outward
//! status to success while recording the real status inside the envelope.

use vstd::prelude::*;

use crate::collector::{AzureFnLoggerExt, AzureFnLoggerInner, OwnershipViolation};
use crate::jsonenc::{
    dec_rep, json_string_array, json_string_object, push_dec_u64, push_quoted, push_string_array,
    push_string_object, quoted,
};
use crate::strutil::{chars_string, push_chars};

verus! {

/// Which outbound envelope shape a deployment expects.
#[derive(Debug, Clone, Copy, PartialEq, Eq, Structural)]
pub enum OutboundShape {
    /// `{"Outputs":{"res":{...}},"Logs":[...]}`, carrying status, headers
    /// and body of the inner response.
    Outputs,
    /// `{"ReturnValue":...,"Logs":[...]}`, carrying only the body.
    ReturnValue,
}

/// The response the downstream pipeline produced, as plain values: status
/// code, headers (each name with all its values), and the body as text.
#[derive(Debug)]
pub struct InnerResponse {
    pub status: u16,
    pub headers: Vec<(String, Vec<String>)>,
    pub body: String,
}

/// The transport-level reply handed back to the host: the outward status,
/// the serialized envelope as the body, and the content type it must be
/// served with.
#[derive(Debug)]
pub struct EncodedResponse {
    pub status: u16,
    pub body: String,
    pub content_type: String,
}

/// The outward status the host accepts as success.
pub open spec fn success_status() -> u16 {
    200u16
}

/// Several values of one header joined into one field value.
pub open spec fn joined_values(values: Seq<Seq<char>>) -> Seq<char>
    decreases values.len(),
{
    if values.len() == 0 {
        Seq::empty()
    } else if values.len() == 1 {
        values[0]
    } else {
        joined_values(values.drop_last()) + ", "@ + values.last()
    }
}

/// The header set with each header's values joined into one string.
pub open spec fn collapsed_headers(headers: Seq<(Seq<char>, Seq<Seq<char>>)>) -> Seq<
    (Seq<char>, Seq<char>),
> {
    headers.map_values(|h: (Seq<char>, Seq<Seq<char>>)| (h.0, joined_values(h.1)))
}

/// The view of a header list as it comes from the pipeline.
pub open spec fn headers_view(headers: Seq<(String, Vec<String>)>) -> Seq<
    (Seq<char>, Seq<Seq<char>>),
> {
    headers.map_values(
        |h: (String, Vec<String>)| (h.0@, h.1@.map_values(|v: String| v@)),
    )
}

/// The outbound envelope in the `Outputs` shape: the inner response's
/// status code, collapsed headers and body under `Outputs.res`, and the
/// collected log trail under `Logs`.
pub open spec fn outputs_envelope(
    status: nat,
    headers: Seq<(Seq<char>, Seq<char>)>,
    body: Seq<char>,
    logs: Seq<Seq<char>>,
) -> Seq<char> {
    "{\"Outputs\":{\"res\":{\"statusCode\":"@ + dec_rep(status) + ",\"headers\":"@
        + json_string_object(headers) + ",\"body\":"@ + quoted(body) + "}},\"Logs\":"@
        + json_string_array(logs) + "}"@
}

/// The outbound envelope in the `ReturnValue` shape: the inner response's
/// body under `ReturnValue` and the collected log trail under `Logs`.
pub open spec fn return_value_envelope(body: Seq<char>, logs: Seq<Seq<char>>) -> Seq<char> {
    "{\"ReturnValue\":"@ + quoted(body) + ",\"Logs\":"@ + json_string_array(logs) + "}"@
}

/// The envelope text for a given shape.
pub open spec fn envelope_text(
    shape: OutboundShape,
    status: nat,
    headers: Seq<(Seq<char>, Seq<Seq<char>>)>,
    body: Seq<char>,
    logs: Seq<Seq<char>>,
) -> Seq<char> {
    match shape {
        OutboundShape::Outputs => outputs_envelope(status, collapsed_headers(headers), body, logs),
        OutboundShape::ReturnValue => return_value_envelope(body, logs),
    }
}

/// Join one header's values with a comma and a space.
pub fn join_header_values(values: &Vec<String>) -> (r: String)
    ensures
        r@ == joined_values(values@.map_values(|v: String| v@)),
{
    let ghost view = values@.map_values(|v: String| v@);
    let mut out: Vec<char> = Vec::new();
    let n = values.len();
    let mut i: usize = 0;
    while i < n
        invariant
            n == values.len(),
            view == values@.map_values(|v: String| v@),
            i <= n,
            out@ == joined_values(view.take(i as int)),
        decreases n - i,
    {
        if i > 0 {
            push_chars(&mut out, ", ");
        }
        push_chars(&mut out, values[i].as_str());
        proof {
            assert(view.take(i + 1 as int).drop_last() =~= view.take(i as int));
            assert(view.take(i + 1 as int).last() == view[i as int]);
            if i == 0 {
                assert(view.take(1int) =~= seq![view[0int]]);
            }
        }
        i = i + 1;
        assert(out@ =~= joined_values(view.take(i as int)));
    }
    assert(view.take(n as int) =~= view);
    chars_string(&out)
}

/// Collapse each header's values into one field value, keeping order.
pub fn collapse_headers(headers: &Vec<(String, Vec<String>)>) -> (r: Vec<(String, String)>)
    ensures
        r@.map_values(|p: (String, String)| (p.0@, p.1@)) == collapsed_headers(
            headers_view(headers@),
        ),
{
    let mut out: Vec<(String, String)> = Vec::new();
    let n = headers.len();
    let mut i: usize = 0;
    while i < n
        invariant
            n == headers.len(),
            i <= n,
            out@.map_values(|p: (String, String)| (p.0@, p.1@)) == collapsed_headers(
                headers_view(headers@.take(i as int)),
            ),
        decreases n - i,
    {
        let joined = join_header_values(&headers[i].1);
        let name = headers[i].0.clone();
        let ghost before = out@;
        out.push((name, joined));
        proof {
            assert(headers_view(headers@.take(i + 1 as int)) =~~= headers_view(
                headers@.take(i as int),
            ).push((headers@[i as int].0@, headers@[i as int].1@.map_values(|v: String| v@))));
            assert(out@.map_values(|p: (String, String)| (p.0@, p.1@)) =~~= before.map_values(
                |p: (String, String)| (p.0@, p.1@),
            ).push((headers@[i as int].0@, joined@)));
            assert(out@.map_values(|p: (String, String)| (p.0@, p.1@)) =~~= collapsed_headers(
                headers_view(headers@.take(i + 1 as int)),
            ));
        }
        i = i + 1;
    }
    assert(headers@.take(n as int) =~= headers@);
    out
}

/// Drain the collector and build the outbound envelope.
///
/// Draining requires sole ownership of the collector; an outstanding
/// shared handle is the fatal ownership violation. Otherwise the reply
/// body is exactly the envelope text for the configured shape, served as
/// JSON, and the outward status is the inner status — or the host's
/// success status when `force_success` is set, with the real status still
/// recorded inside the envelope.
pub fn encode_response(
    shape: OutboundShape,
    force_success: bool,
    resp: InnerResponse,
    logger: AzureFnLoggerInner,
) -> (r: Result<EncodedResponse, OwnershipViolation>)
    ensures
        r is Ok <==> logger.handles() == 0,
        r matches Ok(e) ==> {
            &&& e.status == (if force_success {
                success_status()
            } else {
                resp.status
            })
            &&& e.body@ == envelope_text(
                shape,
                resp.status as nat,
                headers_view(resp.headers@),
                resp.body@,
                logger.lines(),
            )
            &&& e.content_type@ == "application/json"@
        },
{
    let ghost lines = logger.lines();
    let logs = match logger.try_finalize() {
        Ok(logs) => logs,
        Err(violation) => {
            return Err(violation);
        },
    };
    let mut out: Vec<char> = Vec::new();
    match shape {
        OutboundShape::Outputs => {
            let collapsed = collapse_headers(&resp.headers);
            push_chars(&mut out, "{\"Outputs\":{\"res\":{\"statusCode\":");
            push_dec_u64(&mut out, resp.status as u64);
            push_chars(&mut out, ",\"headers\":");
            push_string_object(&mut out, &collapsed);
            push_chars(&mut out, ",\"body\":");
            push_quoted(&mut out, resp.body.as_str());
            push_chars(&mut out, "}},\"Logs\":");
            push_string_array(&mut out, &logs);
            push_chars(&mut out, "}");
            assert(out@ =~= outputs_envelope(
                resp.status as nat,
                collapsed_headers(headers_view(resp.headers@)),
                resp.body@,
                lines,
            ));
        },
        OutboundShape::ReturnValue => {
            push_chars(&mut out, "{\"ReturnValue\":");
            push_quoted(&mut out, resp.body.as_str());
            push_chars(&mut out, ",\"Logs\":");
            push_string_array(&mut out, &logs);
            push_chars(&mut out, "}");
            assert(out@ =~= return_value_envelope(resp.body@, lines));
        },
    }
    let body = chars_string(&out);
    let status: u16 = if force_success {
        200
    } else {
        resp.status
    };
    Ok(EncodedResponse { status, body, content_type: "application/json".to_owned() })
}

} // verus!
