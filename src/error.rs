//! The ways a send can fail.
use vstd::prelude::*;

verus! {

/// Why a send did not go through.
#[derive(Clone, Copy, Debug, PartialEq, Eq, Structural)]
pub enum MailError {
    /// A sender or recipient string is not a valid address.
    InvalidAddress,
    /// The To list holds no address once parsed.
    NoRecipients,
    /// The relay refused the credentials.
    AuthenticationFailed,
    /// The relay could not be reached, or the connection broke.
    TransportFailure,
    /// The relay took the connection but refused the message.
    RejectedByServer,
    /// The operation exists in the interface but has no implementation yet.
    Unsupported,
}

} // verus!
