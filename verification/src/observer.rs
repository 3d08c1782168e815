//! Error-observing middleware.
//!
//! Wraps the call into the pipeline, after the envelope decoder: when the
//! pipeline's final status is a client or server error, it appends one
//! diagnostic line — status code, elapsed time, and whatever structured
//! error detail the response exposes — to the request's collector, without
//! touching status or body. Success statuses pass through silently.

use vstd::prelude::*;

use crate::collector::{logged, AzureFnLoggerExt, AzureFnLoggerInner};
use crate::jsonenc::{dec_rep, push_dec_u64};
use crate::strutil::{chars_string, push_chars};

verus! {

/// Whether a status code is in the client error class.
pub open spec fn is_client_error(status: u16) -> bool {
    400 <= status < 500
}

/// Whether a status code is in the server error class.
pub open spec fn is_server_error(status: u16) -> bool {
    500 <= status < 600
}

/// The structured error detail a response may expose: a message and the
/// name of the error's type.
#[derive(Debug)]
pub struct ErrorDetail {
    pub message: String,
    pub error_type: String,
}

/// The diagnostic line for an error response: its class, the error detail
/// if the response exposes one, the status code with its canonical reason
/// phrase, and the elapsed time.
pub open spec fn diag_line(
    status: u16,
    reason: Seq<char>,
    detail: Option<(Seq<char>, Seq<char>)>,
    elapsed_ms: nat,
) -> Seq<char> {
    (if is_server_error(status) {
        "Internal error. "@
    } else {
        "Client error. "@
    }) + (match detail {
        Some(d) => "message: "@ + d.0 + ", error_type: "@ + d.1 + ", "@,
        None => Seq::<char>::empty(),
    }) + "status: "@ + dec_rep(status as nat) + " - "@ + reason + ", duration: "@ + dec_rep(
        elapsed_ms,
    ) + "ms"@
}

/// The view of an optional error detail as plain sequences.
pub open spec fn detail_view(detail: Option<ErrorDetail>) -> Option<(Seq<char>, Seq<char>)> {
    match detail {
        Some(d) => Some((d.message@, d.error_type@)),
        None => None,
    }
}

/// Middleware that reports client and server errors of the wrapped
/// pipeline into the request's collector.
///
/// Must be used together with `AzureFnMiddleware`, which installs the
/// collector the report goes to.
#[derive(Debug, Clone, Copy)]
pub struct LogMiddleware {
    _priv: (),
}

impl LogMiddleware {
    /// Create a new instance of `LogMiddleware`.
    pub fn new() -> (r: Self) {
        LogMiddleware { _priv: () }
    }

    /// Observe the pipeline's final status: append exactly one diagnostic
    /// line for a client or server error, and nothing otherwise. Never
    /// alters anything but the collector's trail. The caller supplies the
    /// status's canonical reason phrase along with the code.
    pub fn observe(
        &self,
        status: u16,
        reason: &str,
        detail: Option<ErrorDetail>,
        elapsed_ms: u64,
        logger: &mut AzureFnLoggerInner,
    )
        ensures
            is_client_error(status) || is_server_error(status) ==> final(logger).lines() == logged(
                old(logger).lines(),
                old(logger).id(),
                diag_line(status, reason@, detail_view(detail), elapsed_ms as nat),
            ),
            !(is_client_error(status) || is_server_error(status)) ==> final(logger).lines() == old(
                logger,
            ).lines(),
            final(logger).id() == old(logger).id(),
            final(logger).handles() == old(logger).handles(),
    {
        if !(400 <= status && status < 600) {
            return ;
        }
        let mut line: Vec<char> = Vec::new();
        if 500 <= status {
            push_chars(&mut line, "Internal error. ");
        } else {
            push_chars(&mut line, "Client error. ");
        }
        match &detail {
            Some(d) => {
                push_chars(&mut line, "message: ");
                push_chars(&mut line, d.message.as_str());
                push_chars(&mut line, ", error_type: ");
                push_chars(&mut line, d.error_type.as_str());
                push_chars(&mut line, ", ");
            },
            None => {},
        }
        push_chars(&mut line, "status: ");
        push_dec_u64(&mut line, status as u64);
        push_chars(&mut line, " - ");
        push_chars(&mut line, reason);
        push_chars(&mut line, ", duration: ");
        push_dec_u64(&mut line, elapsed_ms);
        push_chars(&mut line, "ms");
        assert(line@ =~= diag_line(status, reason@, detail_view(detail), elapsed_ms as nat));
        logger.log(chars_string(&line));
    }
}

impl Default for LogMiddleware {
    /// The observer in its only configuration.
    fn default() -> (r: Self) {
        LogMiddleware::new()
    }
}

} // verus!
