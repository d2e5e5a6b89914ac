//! The license activator's decision logic: one activation attempt against
//! the remote licensing service yields one reply, and the reply alone
//! decides the outcome. The layer around the library performs the network
//! call and hands the reply in as plain values; it is stateless between
//! calls, and no retry happens anywhere.

use vstd::prelude::*;

use crate::error::Error;

verus! {

/// What one activation attempt came back with.
pub enum ActivationReply {
    /// The remote could not be reached (connection failure or timeout);
    /// carries the transport error's text.
    Unreachable { detail: String },
    /// The remote answered with a non-success HTTP status; carries the
    /// response body.
    HttpFailure { body: String },
    /// The remote answered success but the body was not the expected JSON
    /// shape; carries the decoding error's text.
    MalformedBody { detail: String },
    /// The remote's parsed answer: whether the key is valid and whether it
    /// was activated.
    Response { valid: bool, activated: bool },
}

/// Interprets one activation attempt.
///
/// The key reported both valid and activated is a success; a reply from the
/// remote that says anything else fails with `InvalidLicense`; an
/// unreachable remote, a non-success status or an unreadable body fails
/// with `Transport` carrying the remote's error text when available.
pub fn interpret_activation(reply: ActivationReply) -> (r: Result<bool, Error>)
    ensures
        match reply {
            ActivationReply::Response { valid, activated } => r == (if valid && activated {
                Ok::<bool, Error>(true)
            } else {
                Err::<bool, Error>(Error::InvalidLicense)
            }),
            ActivationReply::Unreachable { detail } => r == Err::<bool, Error>(
                Error::Transport(detail),
            ),
            ActivationReply::HttpFailure { body } => r == Err::<bool, Error>(
                Error::Transport(body),
            ),
            ActivationReply::MalformedBody { detail } => r == Err::<bool, Error>(
                Error::Transport(detail),
            ),
        },
{
    match reply {
        ActivationReply::Response { valid, activated } => {
            if valid && activated {
                Ok(true)
            } else {
                Err(Error::InvalidLicense)
            }
        },
        ActivationReply::Unreachable { detail } => Err(Error::Transport(detail)),
        ActivationReply::HttpFailure { body } => Err(Error::Transport(body)),
        ActivationReply::MalformedBody { detail } => Err(Error::Transport(detail)),
    }
}

} // verus!
