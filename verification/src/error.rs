//! The ways in which a wallet operation can fail. None of them is retried
//! or papered over inside the library.

use vstd::prelude::*;

verus! {

/// Why an operation was abandoned.
#[derive(Clone, Copy, Debug, PartialEq, Eq, Structural)]
pub enum WalletError {
    /// An outside service failed, or answered with malformed data.
    ServiceUnavailable,
    /// The signer's signature does not verify under the expected key.
    VerificationFailure,
    /// No recovery candidate reproduces the expected key.
    RecoveryIdNotFound,
    /// The signature is valid but its recovery id is of the x-reduced kind,
    /// which this wallet refuses to hand out.
    XReducedRecoveryRejected,
}

impl WalletError {
    /// A short description for logs and replies.
    pub fn message(&self) -> (text: &'static str)
        ensures
            text@ == Self::message_spec(*self),
    {
        match self {
            WalletError::ServiceUnavailable => "outside service failed or returned malformed data",
            WalletError::VerificationFailure => "signature does not verify under the derived key",
            WalletError::RecoveryIdNotFound => "no recovery id reproduces the derived key",
            WalletError::XReducedRecoveryRejected => "recovery id is x-reduced",
        }
    }

    /// The text of [`WalletError::message`].
    pub open spec fn message_spec(e: WalletError) -> Seq<char> {
        match e {
            WalletError::ServiceUnavailable => "outside service failed or returned malformed data"@,
            WalletError::VerificationFailure => "signature does not verify under the derived key"@,
            WalletError::RecoveryIdNotFound => "no recovery id reproduces the derived key"@,
            WalletError::XReducedRecoveryRejected => "recovery id is x-reduced"@,
        }
    }
}

} // verus!
