use vstd::prelude::*;
use crate::key::Key;

verus! {

/// Longest skill name, in bytes.
pub const MAX_SKILL_NAME: usize = 50;
/// Longest credential URI, in bytes.
pub const MAX_CREDENTIAL_URI: usize = 100;
/// Longest project title, in bytes.
pub const MAX_PROJECT_TITLE: usize = 100;
/// Longest project description, in bytes.
pub const MAX_PROJECT_DESCRIPTION: usize = 500;
/// Longest link, in bytes.
pub const MAX_LINK: usize = 200;

/// An issuer: created once per owning key, verified by the vault authority.
#[derive(Clone, Copy, Debug)]
pub struct IssuerAccount {
    pub issuer_pubkey: Key,
    pub bump: u8,
    pub is_verified: bool,
    pub created_at: i64,
}

/// A soulbound credential issued by an issuer to a student.
#[derive(Clone, Debug)]
pub struct CredentialAccount {
    pub issuer_pubkey: Key,
    pub student_pubkey: Key,
    pub skill_name: String,
    pub issue_date: i64,
    pub credential_uri: String,
    pub is_soulbound: bool,
    pub is_revoked: bool,
    pub created_at: i64,
    pub revoked_at: Option<i64>,
    pub bump: u8,
}

/// A transferable record of a student's project.
#[derive(Clone, Debug)]
pub struct ProofOfWorkAccount {
    pub student_pubkey: Key,
    pub project_title: String,
    pub project_description: String,
    pub github_link: String,
    pub demo_link: String,
    pub timestamp: i64,
    pub is_transferable: bool,
    pub created_at: i64,
    pub bump: u8,
}

/// What the token mint adapter reported for the calls of one operation.
#[derive(Clone, Copy, Debug, PartialEq, Eq, Structural)]
pub enum AdapterOutcome {
    Completed,
    Failed,
}

/// Creation of an issuer record by `authority`, at time `now`.
#[derive(Clone, Copy, Debug)]
pub struct InitializeIssuer {
    pub authority: Key,
    pub now: i64,
}

/// Verification of the issuer record at `issuer` by the signer `authority`.
#[derive(Clone, Copy, Debug)]
pub struct VerifyIssuer {
    pub authority: Key,
    pub issuer: Key,
}

/// Issuance of a credential: `issuer` is the issuer record's address,
/// `issuer_pubkey` the signing issuer, `student` the recipient.
#[derive(Clone, Copy, Debug)]
pub struct MintCredential {
    pub issuer: Key,
    pub issuer_pubkey: Key,
    pub student: Key,
    pub now: i64,
    pub adapter: AdapterOutcome,
}

/// Self-issuance of a proof-of-work record by the signer `student`.
#[derive(Clone, Copy, Debug)]
pub struct MintProofOfWork {
    pub student: Key,
    pub now: i64,
    pub adapter: AdapterOutcome,
}

/// Lookup of the credential at `credential_account`.
#[derive(Clone, Copy, Debug)]
pub struct VerifyCredential {
    pub credential_account: Key,
}

/// Lookup of the proof-of-work record at `proof_of_work_account`.
#[derive(Clone, Copy, Debug)]
pub struct VerifyProofOfWork {
    pub proof_of_work_account: Key,
}

/// Change of a credential's metadata by the signer `issuer`.
#[derive(Clone, Copy, Debug)]
pub struct UpdateMetadata {
    pub credential_account: Key,
    pub issuer: Key,
    pub adapter: AdapterOutcome,
}

/// Change of a proof-of-work record by the signer `student`.
#[derive(Clone, Copy, Debug)]
pub struct UpdateProofOfWorkMetadata {
    pub proof_of_work_account: Key,
    pub student: Key,
    pub adapter: AdapterOutcome,
}

/// Revocation of a credential by the signer `issuer`, at time `now`.
#[derive(Clone, Copy, Debug)]
pub struct RevokeCredential {
    pub credential_account: Key,
    pub issuer: Key,
    pub now: i64,
}

} // verus!
