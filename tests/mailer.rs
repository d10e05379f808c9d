use mailer::address::{parse_list, Mailbox};
use mailer::envelope::Envelope;
use mailer::error::MailError;
use mailer::service::{EmailService, RelayConfig, RelayOutcome};
use mailer::text::{split_list, trimmed, white_space};

fn addresses(v: &[Mailbox]) -> Vec<String> {
    v.iter().map(|m| m.address()).collect()
}

#[test]
fn split_drops_empty_segments_in_order() {
    assert_eq!(split_list("a@x.com, , b@x.com"), vec!["a@x.com", "b@x.com"]);
}

#[test]
fn split_trims_unicode_white_space() {
    assert_eq!(split_list("\ta@x.com\u{3000},\u{a0}b@x.com \n"), vec!["a@x.com", "b@x.com"]);
}

#[test]
fn split_of_empty_and_blank_lists() {
    assert!(split_list("").is_empty());
    assert!(split_list(" , ,, ").is_empty());
}

#[test]
fn split_keeps_duplicates() {
    assert_eq!(split_list("a@x.com,a@x.com"), vec!["a@x.com", "a@x.com"]);
}

#[test]
fn parse_plain_address() {
    let m = Mailbox::parse("a@x.com").unwrap();
    assert_eq!(m.user(), "a");
    assert_eq!(m.domain(), "x.com");
    assert_eq!(m.name(), None);
    assert_eq!(m.address(), "a@x.com");
    assert_eq!(m.render(), "a@x.com");
}

#[test]
fn parse_named_address() {
    let m = Mailbox::parse("Alice <alice@x.com>").unwrap();
    assert_eq!(m.name(), Some("Alice"));
    assert_eq!(m.address(), "alice@x.com");
    assert_eq!(m.render(), "Alice <alice@x.com>");
}

#[test]
fn parse_rejects_invalid_address() {
    assert_eq!(Mailbox::parse("not-an-address").unwrap_err(), MailError::InvalidAddress);
    assert_eq!(Mailbox::parse("").unwrap_err(), MailError::InvalidAddress);
}

#[test]
fn parse_render_parse_is_stable() {
    for x in ["a@x.com", "Alice <alice@x.com>", "\"Bob, Jr.\" <bob@y.org>", "c.d+e@sub.x.com"] {
        let once = Mailbox::parse(x).unwrap();
        let twice = Mailbox::parse(&once.render()).unwrap();
        assert_eq!(once.name(), twice.name());
        assert_eq!(once.user(), twice.user());
        assert_eq!(once.domain(), twice.domain());
    }
}

#[test]
fn parse_list_in_order() {
    let v = parse_list("a@x.com, , b@x.com").unwrap();
    assert_eq!(v.len(), 2);
    assert_eq!(addresses(&v), vec!["a@x.com", "b@x.com"]);
}

#[test]
fn parse_list_fails_on_one_bad_entry() {
    assert_eq!(parse_list("a@x.com, nope").unwrap_err(), MailError::InvalidAddress);
}

#[test]
fn empty_to_gives_no_recipients() {
    let r = Envelope::build("a@x.com", "", "s", "b", None, None);
    assert_eq!(r.err(), Some(MailError::NoRecipients));
    let r = Envelope::build("a@x.com", " , ", "s", "b", None, None);
    assert_eq!(r.err(), Some(MailError::NoRecipients));
}

#[test]
fn empty_cc_and_bcc_are_no_error() {
    let e = Envelope::build("a@x.com", "b@x.com", "s", "b", Some(""), Some("")).unwrap();
    assert!(e.cc.is_empty());
    assert!(e.bcc.is_empty());
}

#[test]
fn bcc_stays_out_of_headers() {
    let e = Envelope::build("a@x.com", "b@x.com,c@x.com", "s", "b", None, Some("d@x.com")).unwrap();
    let headers = e.header_addresses();
    assert_eq!(headers, vec!["a@x.com", "b@x.com", "c@x.com"]);
    assert!(!headers.contains(&"d@x.com".to_string()));
    assert_eq!(e.recipients(), vec!["b@x.com", "c@x.com", "d@x.com"]);
    assert_eq!(e.from.address(), "a@x.com");
}

#[test]
fn cc_is_in_headers_and_recipients() {
    let e = Envelope::build("a@x.com", "b@x.com", "s", "b", Some("c@x.com, b@x.com"), None).unwrap();
    assert_eq!(e.header_addresses(), vec!["a@x.com", "b@x.com", "c@x.com", "b@x.com"]);
    assert_eq!(e.recipients(), vec!["b@x.com", "c@x.com", "b@x.com"]);
    assert_eq!(e.subject, "s");
    assert_eq!(e.body, "b");
}

#[test]
fn invalid_address_in_any_position() {
    let bad = "not-an-address";
    let cases = [
        Envelope::build(bad, "b@x.com", "s", "b", None, None),
        Envelope::build("a@x.com", bad, "s", "b", None, None),
        Envelope::build("a@x.com", "b@x.com", "s", "b", Some(bad), None),
        Envelope::build("a@x.com", "b@x.com", "s", "b", None, Some(bad)),
        Envelope::build("a@x.com", "", "s", "b", Some(bad), None),
    ];
    for r in cases {
        assert_eq!(r.err(), Some(MailError::InvalidAddress));
    }
}

#[test]
fn invalid_address_prepares_no_submission() {
    let svc = EmailService::new();
    let relay = RelayConfig::new("relay.example.com", 587);
    let r = svc.prepare_send(&relay, "a@x.com", "pw", "b@x.com", "s", "b", None, Some("not-an-address"));
    assert_eq!(r.err().map(|e| e), Some(MailError::InvalidAddress));
}

#[test]
fn prepare_send_gathers_the_submission() {
    let svc = EmailService::new();
    let relay = RelayConfig::new("relay.example.com", 587);
    let s = svc
        .prepare_send(&relay, "a@x.com", "pw", "b@x.com,c@x.com", "hi", "body", None, Some("d@x.com"))
        .unwrap();
    assert_eq!(s.relay.host, "relay.example.com");
    assert_eq!(s.relay.port, 587);
    assert_eq!(s.credentials.user, "a@x.com");
    assert_eq!(s.credentials.secret, "pw");
    assert_eq!(s.envelope.recipients(), vec!["b@x.com", "c@x.com", "d@x.com"]);
}

#[test]
fn relay_outcomes_are_classified() {
    let svc = EmailService::new();
    assert_eq!(svc.conclude(RelayOutcome::Accepted), Ok(()));
    assert_eq!(svc.conclude(RelayOutcome::CredentialsRejected), Err(MailError::AuthenticationFailed));
    assert_eq!(svc.conclude(RelayOutcome::ConnectionFailed), Err(MailError::TransportFailure));
    assert_eq!(svc.conclude(RelayOutcome::MessageRejected), Err(MailError::RejectedByServer));
}

#[test]
fn inbox_fetch_is_unsupported() {
    let svc = EmailService::new();
    assert_eq!(svc.fetch_inbox("me@x.com", Some(10)).err(), Some(MailError::Unsupported));
    assert_eq!(svc.fetch_inbox("me@x.com", None).err(), Some(MailError::Unsupported));
}

#[test]
fn failures_are_classed_by_reply_code() {
    assert_eq!(RelayOutcome::from_failure(Some(535)), RelayOutcome::CredentialsRejected);
    assert_eq!(RelayOutcome::from_failure(Some(530)), RelayOutcome::CredentialsRejected);
    assert_eq!(RelayOutcome::from_failure(Some(550)), RelayOutcome::MessageRejected);
    assert_eq!(RelayOutcome::from_failure(Some(452)), RelayOutcome::MessageRejected);
    assert_eq!(RelayOutcome::from_failure(None), RelayOutcome::ConnectionFailed);
}

#[test]
fn simulated_relay_failures_end_the_send() {
    let svc = EmailService::new();
    assert_eq!(svc.conclude(RelayOutcome::from_failure(Some(535))), Err(MailError::AuthenticationFailed));
    assert_eq!(svc.conclude(RelayOutcome::from_failure(Some(554))), Err(MailError::RejectedByServer));
    assert_eq!(svc.conclude(RelayOutcome::from_failure(None)), Err(MailError::TransportFailure));
}

#[test]
fn trimmed_removes_white_space_at_both_ends() {
    assert_eq!(trimmed(" \t a b \u{2028}"), "a b");
    assert_eq!(trimmed("   "), "");
    assert_eq!(trimmed("x"), "x");
    assert!(white_space('\u{85}'));
    assert!(!white_space('\u{200b}'));
}

#[test]
fn parsed_names_hold_no_line_break() {
    assert_eq!(Mailbox::parse("\"A\nB\" <a@x.com>").unwrap_err(), MailError::InvalidAddress);
    assert_eq!(Mailbox::parse("A\r\nB <a@x.com>").unwrap_err(), MailError::InvalidAddress);
    let m = Mailbox::parse("\"A\tB\" <a@x.com>").unwrap();
    assert!(!m.render().contains('\n'));
}

#[test]
fn blank_cc_or_bcc_equals_absent() {
    let absent = Envelope::build("a@x.com", "b@x.com", "s", "b", None, None).unwrap();
    for blank in ["", " ", " , ,\t"] {
        let with_cc = Envelope::build("a@x.com", "b@x.com", "s", "b", Some(blank), None).unwrap();
        let with_bcc = Envelope::build("a@x.com", "b@x.com", "s", "b", None, Some(blank)).unwrap();
        for e in [&with_cc, &with_bcc] {
            assert_eq!(e.header_addresses(), absent.header_addresses());
            assert_eq!(e.recipients(), absent.recipients());
            assert!(e.cc.is_empty() && e.bcc.is_empty());
        }
    }
}

#[test]
fn relay_timeout_is_kept() {
    let relay = RelayConfig::new("relay.example.com", 587);
    assert_eq!(relay.timeout_ms, None);
    let relay = relay.with_timeout(30_000);
    assert_eq!(relay.timeout_ms, Some(30_000));
    let s = EmailService::new()
        .prepare_send(&relay, "a@x.com", "pw", "b@x.com", "s", "b", None, None)
        .unwrap();
    assert_eq!(s.relay.timeout_ms, Some(30_000));
}
