//! The decisions inside the payment-notification flow: which transaction
//! types are acceptable, how the verification service's reply is read,
//! and when a payment counts as completed.
//!
//! The surrounding request/response plumbing — posting the message back
//! for verification, talking to the list API — stays outside; these
//! functions take the plain values that came back and decide.

use vstd::prelude::*;

use crate::strutil::{chars_string, push_chars, str_eq};

verus! {

/// The body posted back to the payment service to verify a notification:
/// the validate command in front of the raw message, unchanged.
pub fn verification_body(raw_message: &str) -> (r: String)
    ensures
        r@ == "cmd=_notify-validate&"@ + raw_message@,
{
    let mut out: Vec<char> = Vec::new();
    push_chars(&mut out, "cmd=_notify-validate&");
    push_chars(&mut out, raw_message);
    chars_string(&out)
}

/// Whether a notification's transaction type is one this service accepts:
/// yearly subscription payments and one-off payments.
pub fn txn_type_accepted(txn_type: &Option<String>) -> (r: bool)
    ensures
        r == (txn_type matches Some(t) && (t@ == "web_accept"@ || t@ == "subscr_payment"@)),
{
    match txn_type {
        Some(t) => str_eq(t.as_str(), "web_accept") || str_eq(t.as_str(), "subscr_payment"),
        None => false,
    }
}

/// How the verification service answered for a notification.
#[derive(Debug, PartialEq, Eq, Structural)]
pub enum IpnVerification {
    /// The service confirmed the notification.
    Verified,
    /// The service rejected the notification.
    Invalid,
    /// The service answered something else entirely.
    Unexpected,
}

/// Read the verification service's reply body.
pub fn classify_verification(body: &str) -> (r: IpnVerification)
    ensures
        r is Verified <==> body@ == "VERIFIED"@,
        r is Invalid <==> body@ == "INVALID"@,
        r is Unexpected <==> (body@ != "VERIFIED"@ && body@ != "INVALID"@),
{
    proof {
        reveal_strlit("VERIFIED");
        reveal_strlit("INVALID");
        assert("VERIFIED"@.len() != "INVALID"@.len());
    }
    if str_eq(body, "VERIFIED") {
        IpnVerification::Verified
    } else if str_eq(body, "INVALID") {
        IpnVerification::Invalid
    } else {
        IpnVerification::Unexpected
    }
}

/// Whether a notification's payment status is `Completed` — anything
/// else is ignored, since a completed notification usually follows a
/// pending one later.
pub fn payment_completed(status: &str) -> (r: bool)
    ensures
        r == (status@ == "Completed"@),
{
    str_eq(status, "Completed")
}

} // verus!
