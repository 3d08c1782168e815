//! The parts of the MailChimp glue that decide rather than transport:
//! building a member's list path and mapping the statuses the list API
//! reports.
//!
//! The member id in the list path is the md5 digest of the lower-cased
//! email address, rendered as lower-case hex — the list API's own
//! convention.

use vstd::prelude::*;

use crate::strutil::{chars_string, push_chars, str_eq};

verus! {

pub uninterp spec fn lower_of(s: Seq<char>) -> Seq<char>;

/// Relies on str::to_lowercase: the result depends on the characters
/// alone.
#[verifier::external_body]
fn lowercase(s: &str) -> (r: String)
    ensures
        r@ == lower_of(s@),
{
    s.to_lowercase()
}

pub uninterp spec fn md5_hex_of(s: Seq<char>) -> Seq<char>;

/// Relies on md5::compute and the digest's LowerHex rendering: a sixteen
/// byte digest, each byte as two lower-case hex digits, so thirty-two
/// characters; a function of the input characters alone.
#[verifier::external_body]
fn md5_hex(s: &str) -> (r: String)
    ensures
        r@ == md5_hex_of(s@),
        r@.len() == 32,
{
    format!("{:x}", md5::compute(s))
}

/// The member path for a list and an email address.
pub open spec fn member_path(list_id: Seq<char>, email: Seq<char>) -> Seq<char> {
    "3.0/lists/"@ + list_id + "/members/"@ + md5_hex_of(lower_of(email))
}

/// Build the list-API path addressing one member: the list id and the
/// md5 of the lower-cased email.
pub fn mailchimp_member_path(list_id: &str, email: &str) -> (r: String)
    ensures
        r@ == member_path(list_id@, email@),
{
    let lowered = lowercase(email);
    let hash = md5_hex(lowered.as_str());
    let mut out: Vec<char> = Vec::new();
    push_chars(&mut out, "3.0/lists/");
    push_chars(&mut out, list_id);
    push_chars(&mut out, "/members/");
    push_chars(&mut out, hash.as_str());
    assert(out@ =~= member_path(list_id@, email@));
    chars_string(&out)
}

/// Whether a member's reported status counts as an active subscription:
/// `pending` and `subscribed` do, anything else does not.
pub fn membership_active(status: &str) -> (r: bool)
    ensures
        r == (status@ == "pending"@ || status@ == "subscribed"@),
{
    str_eq(status, "pending") || str_eq(status, "subscribed")
}

/// What to do about a member's subscription when a payment arrives,
/// given the status the list reports for them — or nothing, when they
/// are not on the list yet.
#[derive(Debug, PartialEq, Eq, Structural)]
pub enum SubscriptionDecision {
    /// The member unsubscribed from the emails: leave them alone, they
    /// stay a list member regardless.
    LeaveUnsubscribed,
    /// The member is subscribed: keep them subscribed.
    KeepSubscribed,
    /// Anyone else — unknown, archived, or not on the list — is set to
    /// pending, so they can properly accept if they want the emails.
    SetPending,
}

/// Decide the subscription status to write for a member, from the status
/// the list reports (`None` when the member is not on the list).
pub fn decide_subscription(existing: &Option<String>) -> (r: SubscriptionDecision)
    ensures
        r is LeaveUnsubscribed <==> (existing matches Some(s) && s@ == "unsubscribed"@),
        r is KeepSubscribed <==> (existing matches Some(s) && s@ == "subscribed"@),
        r is SetPending <==> !(existing matches Some(s) && (s@ == "unsubscribed"@ || s@
            == "subscribed"@)),
{
    proof {
        reveal_strlit("unsubscribed");
        reveal_strlit("subscribed");
        assert("unsubscribed"@.len() != "subscribed"@.len());
    }
    match existing {
        Some(s) => {
            if str_eq(s.as_str(), "unsubscribed") {
                SubscriptionDecision::LeaveUnsubscribed
            } else if str_eq(s.as_str(), "subscribed") {
                SubscriptionDecision::KeepSubscribed
            } else {
                SubscriptionDecision::SetPending
            }
        },
        None => SubscriptionDecision::SetPending,
    }
}

} // verus!
