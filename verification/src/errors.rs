//! What the vault refuses.

use vstd::prelude::*;
use vstd::string::*;

verus! {

/// The two requests that the vault turns down. Neither changes the record.
#[derive(Clone, Copy, Debug, PartialEq, Eq, Structural)]
pub enum CustomContractError {
    /// A secret was submitted while the vault already holds one.
    AlreadyAddedSecret,
    /// A code was asked for while the vault holds no secret.
    SecretNotReady,
}

impl CustomContractError {
    /// The sentence that tells a caller what went wrong.
    pub open spec fn spec_message(self) -> Seq<char> {
        match self {
            CustomContractError::AlreadyAddedSecret => "Custom error #1: Cannot add more than one secret."@,
            CustomContractError::SecretNotReady => "Can't compute a token until the secret is loaded!"@,
        }
    }

    /// The sentence that tells a caller what went wrong.
    pub fn message(&self) -> (text: String)
        ensures
            text@ == self.spec_message(),
    {
        match self {
            CustomContractError::AlreadyAddedSecret => String::from_str(
                "Custom error #1: Cannot add more than one secret.",
            ),
            CustomContractError::SecretNotReady => String::from_str(
                "Can't compute a token until the secret is loaded!",
            ),
        }
    }
}

} // verus!
