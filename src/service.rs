//! The mail service: prepares a send for a relay and classifies how the
//! relay answered.
use vstd::prelude::*;
use vstd::string::*;

use crate::envelope::{envelope_outcome, opt_str, Envelope, EnvelopeValue};
use crate::error::MailError;

verus! {

#[verifier::external_type_specification]
#[verifier::external_body]
pub struct ExJsonValue(serde_json::Value);

/// Where messages are submitted: a relay host, its submission port, and an
/// optional time limit for one call, in milliseconds.
pub struct RelayConfig {
    pub host: String,
    pub port: u16,
    pub timeout_ms: Option<u64>,
}

impl RelayConfig {
    /// A relay with no time limit of its own.
    pub fn new(host: &str, port: u16) -> (r: RelayConfig)
        ensures
            r.host@ == host@,
            r.port == port,
            r.timeout_ms == None::<u64>,
    {
        RelayConfig { host: String::from_str(host), port, timeout_ms: None }
    }

    /// The same relay with a time limit for each call.
    pub fn with_timeout(self, timeout_ms: u64) -> (r: RelayConfig)
        ensures
            r.host@ == self.host@,
            r.port == self.port,
            r.timeout_ms == Some(timeout_ms),
    {
        RelayConfig { host: self.host, port: self.port, timeout_ms: Some(timeout_ms) }
    }
}

/// The login presented to the relay.
pub struct Credentials {
    pub user: String,
    pub secret: String,
}

/// Everything one submission needs: the relay, the login and the envelope.
/// It exists only for a send whose addresses all parsed.
pub struct Submission {
    pub relay: RelayConfig,
    pub credentials: Credentials,
    pub envelope: Envelope,
}

/// How the relay answered the one submission attempt.
#[derive(Clone, Copy, Debug, PartialEq, Eq, Structural)]
pub enum RelayOutcome {
    /// The relay acknowledged the whole message.
    Accepted,
    /// The relay refused the login.
    CredentialsRejected,
    /// The relay could not be reached, or the connection broke.
    ConnectionFailed,
    /// The relay took the connection but refused the message.
    MessageRejected,
}

/// The result of a send, given how the relay answered.
pub open spec fn outcome_result(o: RelayOutcome) -> Result<(), MailError> {
    match o {
        RelayOutcome::Accepted => Ok(()),
        RelayOutcome::CredentialsRejected => Err(MailError::AuthenticationFailed),
        RelayOutcome::ConnectionFailed => Err(MailError::TransportFailure),
        RelayOutcome::MessageRejected => Err(MailError::RejectedByServer),
    }
}

/// The SMTP reply codes that refuse a login: authentication required (530),
/// mechanism too weak (534), credentials invalid (535).
pub open spec fn is_login_refusal(code: u16) -> bool {
    code == 530 || code == 534 || code == 535
}

/// How a failed attempt is classed: a reply code that refuses the login, any
/// other reply code from the relay, or no reply at all.
pub open spec fn failure_outcome(code: Option<u16>) -> RelayOutcome {
    match code {
        Some(c) => if is_login_refusal(c) {
            RelayOutcome::CredentialsRejected
        } else {
            RelayOutcome::MessageRejected
        },
        None => RelayOutcome::ConnectionFailed,
    }
}

impl RelayOutcome {
    /// Classes a failed attempt by the SMTP reply code the relay sent, if it
    /// sent one.
    pub fn from_failure(code: Option<u16>) -> (r: RelayOutcome)
        ensures
            r == failure_outcome(code),
    {
        match code {
            Some(c) => if c == 530 || c == 534 || c == 535 {
                RelayOutcome::CredentialsRejected
            } else {
                RelayOutcome::MessageRejected
            },
            None => RelayOutcome::ConnectionFailed,
        }
    }
}

/// Sends mail through a relay. It holds no state: each send stands alone.
pub struct EmailService;

impl EmailService {
    pub fn new() -> (r: EmailService)
        ensures
            r == EmailService,
    {
        EmailService
    }

    /// Validates a send and gathers what its submission needs. The login is
    /// the sender string with the given secret. Nothing is to be submitted
    /// unless this returns `Ok`.
    pub fn prepare_send(
        &self,
        relay: &RelayConfig,
        from_email: &str,
        from_password: &str,
        to: &str,
        subject: &str,
        body: &str,
        cc: Option<&str>,
        bcc: Option<&str>,
    ) -> (r: Result<Submission, MailError>)
        ensures
            match r {
                Ok(s) => envelope_outcome(
                    from_email@,
                    to@,
                    subject@,
                    body@,
                    opt_str(cc),
                    opt_str(bcc),
                ) == Ok::<EnvelopeValue, MailError>(s.envelope@) && s.envelope.wf()
                    && s.relay.host@ == relay.host@ && s.relay.port == relay.port
                    && s.relay.timeout_ms == relay.timeout_ms
                    && s.credentials.user@ == from_email@ && s.credentials.secret@
                    == from_password@,
                Err(e) => envelope_outcome(
                    from_email@,
                    to@,
                    subject@,
                    body@,
                    opt_str(cc),
                    opt_str(bcc),
                ) == Err::<EnvelopeValue, MailError>(e),
            },
    {
        match Envelope::build(from_email, to, subject, body, cc, bcc) {
            Ok(envelope) => Ok(
                Submission {
                    relay: RelayConfig {
                        host: String::from_str(relay.host.as_str()),
                        port: relay.port,
                        timeout_ms: relay.timeout_ms,
                    },
                    credentials: Credentials {
                        user: String::from_str(from_email),
                        secret: String::from_str(from_password),
                    },
                    envelope,
                },
            ),
            Err(e) => Err(e),
        }
    }

    /// The result of a send after its single submission attempt. Every
    /// failure is final: the caller decides whether to try again.
    pub fn conclude(&self, outcome: RelayOutcome) -> (r: Result<(), MailError>)
        ensures
            r == outcome_result(outcome),
    {
        match outcome {
            RelayOutcome::Accepted => Ok(()),
            RelayOutcome::CredentialsRejected => Err(MailError::AuthenticationFailed),
            RelayOutcome::ConnectionFailed => Err(MailError::TransportFailure),
            RelayOutcome::MessageRejected => Err(MailError::RejectedByServer),
        }
    }

    /// Inbox retrieval is not implemented: it always reports `Unsupported`
    /// rather than an empty inbox.
    pub fn fetch_inbox(&self, account: &str, limit: Option<u32>) -> (r: Result<
        Vec<serde_json::Value>,
        MailError,
    >)
        ensures
            r matches Err(MailError::Unsupported),
    {
        Err(MailError::Unsupported)
    }
}

} // verus!
