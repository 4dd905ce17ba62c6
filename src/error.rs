use vstd::prelude::*;

verus! {

/// Every way an operation on the vault can fail.
#[derive(Clone, Copy, Debug, PartialEq, Eq, Structural)]
pub enum CredVaultError {
    /// The issuer record has not been verified by the vault authority.
    IssuerNotVerified,
    /// The signer is not the issuer stored in the record.
    UnauthorizedIssuer,
    /// The credential has already been revoked.
    CredentialRevoked,
    /// The credential is not soulbound.
    NotSoulbound,
    /// The signer is not the student who owns the proof-of-work record.
    UnauthorizedUpdate,
    /// The issuer record does not live at the address derived from the signer.
    InvalidIssuerAccount,
    /// A record already occupies the derived address.
    AlreadyExists,
    /// No record lives at the given address.
    NotFound,
    /// The token mint adapter reported a failure.
    AdapterFailure,
    /// A text field is longer than its byte cap.
    FieldTooLong,
    /// No program address could be derived from the seeds.
    InvalidSeeds,
    /// The signer is not the vault authority.
    UnauthorizedAuthority,
}

} // verus!
