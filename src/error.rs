use vstd::prelude::*;

verus! {

/// Every way a provisioning request can fail.
#[derive(Clone, Copy, Debug, PartialEq, Eq, Structural)]
pub enum VaultError {
    /// The initiating wallet did not sign the request.
    AuthenticationError,
    /// The system authority account, or the new account's owner, is not the expected identity.
    IdentityMismatchError,
    /// The instruction payload is empty or shorter than its length prefixes declare.
    MalformedInstructionError,
    /// A seed is longer than the derivation accepts.
    SeedTooLongError,
    /// No bump seed yields a valid derived address.
    DerivationExhaustedError,
    /// The claimed address or bump is not the canonical derivation.
    AddressMismatchError,
    /// The host could not create the vault account.
    ProvisioningError,
}

} // verus!
