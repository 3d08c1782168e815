use azure_fn_adapter::{
    classify_verification, decide_subscription, mailchimp_member_path, membership_active,
    parse_mailchimp_date, payment_completed, safe_add_year, str_eq, today_ppt, txn_type_accepted,
    verification_body, Date, DateError, IpnVerification, SubscriptionDecision,
};

#[test]
fn member_path_hashes_lowercased_email() {
    let path = mailchimp_member_path("list9", "Foo@Example.COM");
    let digest = format!("{:x}", md5::compute("foo@example.com"));
    assert_eq!(path, format!("3.0/lists/list9/members/{}", digest));
}

#[test]
fn member_path_known_digest() {
    // md5("md5") is a fixed value; the digest must be hex, lower case.
    let path = mailchimp_member_path("l", "md5");
    assert_eq!(path, "3.0/lists/l/members/1bc29b36f623ba82aaf6724fd3b16718");
}

#[test]
fn txn_types() {
    assert!(txn_type_accepted(&Some("web_accept".to_string())));
    assert!(txn_type_accepted(&Some("subscr_payment".to_string())));
    assert!(!txn_type_accepted(&Some("subscr_cancel".to_string())));
    assert!(!txn_type_accepted(&None));
}

#[test]
fn verification_classes() {
    assert_eq!(classify_verification("VERIFIED"), IpnVerification::Verified);
    assert_eq!(classify_verification("INVALID"), IpnVerification::Invalid);
    assert_eq!(classify_verification("verified"), IpnVerification::Unexpected);
    assert_eq!(classify_verification(""), IpnVerification::Unexpected);
}

#[test]
fn verification_body_prefixes_command() {
    assert_eq!(
        verification_body("txn_id=1&payment_status=Completed"),
        "cmd=_notify-validate&txn_id=1&payment_status=Completed"
    );
    assert_eq!(verification_body(""), "cmd=_notify-validate&");
}

#[test]
fn payment_status() {
    assert!(payment_completed("Completed"));
    assert!(!payment_completed("Pending"));
}

#[test]
fn subscription_decisions() {
    assert_eq!(
        decide_subscription(&Some("unsubscribed".to_string())),
        SubscriptionDecision::LeaveUnsubscribed
    );
    assert_eq!(
        decide_subscription(&Some("subscribed".to_string())),
        SubscriptionDecision::KeepSubscribed
    );
    assert_eq!(
        decide_subscription(&Some("cleaned".to_string())),
        SubscriptionDecision::SetPending
    );
    assert_eq!(decide_subscription(&None), SubscriptionDecision::SetPending);
}

#[test]
fn membership_labels() {
    assert!(membership_active("pending"));
    assert!(membership_active("subscribed"));
    assert!(!membership_active("unsubscribed"));
    assert!(!membership_active(""));
}

#[test]
fn parse_dates() {
    let d = parse_mailchimp_date("2021-03-09").expect("valid date");
    assert_eq!((d.year, d.month, d.day), (2021, 3, 9));
    let leap = parse_mailchimp_date("2020-02-29").expect("leap day");
    assert_eq!((leap.year, leap.month, leap.day), (2020, 2, 29));
    assert_eq!(parse_mailchimp_date("2021-02-29"), Err(DateError::InvalidDate));
    assert_eq!(parse_mailchimp_date("2021-13-01"), Err(DateError::InvalidDate));
    assert_eq!(parse_mailchimp_date("2021-3-9"), Err(DateError::BadShape));
    assert_eq!(parse_mailchimp_date("2021/03/09"), Err(DateError::BadShape));
    assert_eq!(parse_mailchimp_date(""), Err(DateError::BadShape));
}

#[test]
fn century_leap_rule() {
    assert_eq!(parse_mailchimp_date("1900-02-29"), Err(DateError::InvalidDate));
    let d = parse_mailchimp_date("2000-02-29").expect("400-year leap");
    assert_eq!((d.year, d.month, d.day), (2000, 2, 29));
}

#[test]
fn format_dates() {
    let d = Date { year: 2021, month: 3, day: 9 };
    assert_eq!(d.to_mailchimp_format(), "2021-03-09");
    let early = Date { year: 99, month: 12, day: 31 };
    assert_eq!(early.to_mailchimp_format(), "0099-12-31");
    let back = parse_mailchimp_date(&d.to_mailchimp_format()).expect("round trip");
    assert_eq!(back, d);
}

#[test]
fn add_years() {
    let leap_day = Date { year: 2020, month: 2, day: 29 };
    let moved = safe_add_year(leap_day, 1);
    assert_eq!((moved.year, moved.month, moved.day), (2021, 2, 28));
    let four = safe_add_year(leap_day, 4);
    assert_eq!((four.year, four.month, four.day), (2024, 2, 29));
    let plain = safe_add_year(Date { year: 2021, month: 3, day: 9 }, 1);
    assert_eq!((plain.year, plain.month, plain.day), (2022, 3, 9));
}

#[test]
fn today_is_a_calendar_day() {
    let d = today_ppt();
    assert!((1..=12).contains(&d.month));
    assert!((1..=31).contains(&d.day));
}

#[test]
fn string_comparison() {
    assert!(str_eq("", ""));
    assert!(str_eq("abc", "abc"));
    assert!(!str_eq("abc", "abd"));
    assert!(!str_eq("abc", "ab"));
    assert!(str_eq("naïve ✓", "naïve ✓"));
}
