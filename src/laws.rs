use vstd::prelude::*;
use crate::accounts::{
    AdapterOutcome, CredentialAccount, MintCredential, ProofOfWorkAccount, RevokeCredential,
    UpdateMetadata, UpdateProofOfWorkMetadata,
};
use crate::address::{credential_seeds, derived_as, program_address_of, seed_of};
use crate::error::CredVaultError;
use crate::key::Key;
use crate::vault::{new_or_kept, Vault};

verus! {

/// Deriving a credential address is a function of its inputs: two
/// derivations from the same program, student, issuer and skill name give the
/// same answer.
pub proof fn law_credential_address_deterministic(
    program_id: Seq<u8>,
    student: Seq<u8>,
    issuer: Seq<u8>,
    skill_name: Seq<char>,
    first: Option<(Key, u8)>,
    second: Option<(Key, u8)>,
)
    requires
        derived_as(first, program_address_of(credential_seeds(student, issuer, skill_name), program_id)),
        derived_as(second, program_address_of(credential_seeds(student, issuer, skill_name), program_id)),
    ensures
        match (first, second) {
            (Some(a), Some(b)) => a.0@ == b.0@ && a.1 == b.1,
            (None, None) => true,
            _ => false,
        },
{
}

/// Skill names whose address seeds agree (the same first 32 bytes) derive the
/// same credential address.
pub proof fn law_credential_seed_collision(
    program_id: Seq<u8>,
    student: Seq<u8>,
    issuer: Seq<u8>,
    skill_name: Seq<char>,
    other_skill_name: Seq<char>,
)
    requires
        seed_of(skill_name) == seed_of(other_skill_name),
    ensures
        program_address_of(credential_seeds(student, issuer, skill_name), program_id)
            == program_address_of(credential_seeds(student, issuer, other_skill_name), program_id),
{
    assert(credential_seeds(student, issuer, skill_name) =~= credential_seeds(student, issuer, other_skill_name));
}

/// The address and bump that issuing with these inputs admits.
pub open spec fn admitted(before: Vault, ctx: MintCredential, skill_name: Seq<char>, credential_uri: Seq<char>) -> (Seq<u8>, u8) {
    match before.credential_mint_check(ctx, skill_name, credential_uri) {
        Ok(found) => found,
        Err(_) => (Seq::empty(), 0),
    }
}

/// `after` is the store after issuing, from `before`, the credential that
/// `credential_mint_check` admitted.
pub open spec fn minted_credential(
    before: Vault,
    after: Vault,
    ctx: MintCredential,
    skill_name: String,
    issue_date: i64,
    credential_uri: String,
) -> bool {
    let (address, bump) = admitted(before, ctx, skill_name@, credential_uri@);
    &&& before.credential_mint_check(ctx, skill_name@, credential_uri@) is Ok
    &&& after.same_but_credentials(&before)
    &&& after.credentials() == before.credentials().insert(
        address,
        (CredentialAccount {
            issuer_pubkey: ctx.issuer_pubkey,
            student_pubkey: ctx.student,
            skill_name,
            issue_date,
            credential_uri,
            is_soulbound: true,
            is_revoked: false,
            created_at: ctx.now,
            revoked_at: None,
            bump,
        }),
    )
}

/// Issuing the same (student, issuer, skill name) credential a second time
/// fails with `AlreadyExists`, whatever the adapter reports.
pub proof fn law_mint_credential_once(
    before: Vault,
    after: Vault,
    ctx: MintCredential,
    skill_name: String,
    issue_date: i64,
    credential_uri: String,
    again: AdapterOutcome,
)
    requires
        minted_credential(before, after, ctx, skill_name, issue_date, credential_uri),
    ensures
        after.credential_mint_check((MintCredential { adapter: again, ..ctx }), skill_name@, credential_uri@)
            == Err::<(Seq<u8>, u8), CredVaultError>(CredVaultError::AlreadyExists),
{
}

/// An unverified issuer can issue nothing: whatever the other inputs,
/// issuing fails with `IssuerNotVerified`.
pub proof fn law_unverified_issuer_cannot_mint(
    vault: Vault,
    ctx: MintCredential,
    skill_name: Seq<char>,
    credential_uri: Seq<char>,
)
    requires
        vault.issuers().contains_key(ctx.issuer@),
        !vault.issuers()[ctx.issuer@].is_verified,
    ensures
        vault.credential_mint_check(ctx, skill_name, credential_uri)
            == Err::<(Seq<u8>, u8), CredVaultError>(CredVaultError::IssuerNotVerified),
{
}

/// A credential issued at a positive time verifies as valid, and its issuer
/// may revoke it; once revoked it verifies as invalid, and a second
/// revocation fails with `CredentialRevoked`.
pub proof fn law_verify_after_mint_and_revoke(
    before: Vault,
    minted: Vault,
    revoked: Vault,
    ctx: MintCredential,
    skill_name: String,
    issue_date: i64,
    credential_uri: String,
    revoke: RevokeCredential,
)
    requires
        ctx.now > 0,
        minted_credential(before, minted, ctx, skill_name, issue_date, credential_uri),
        revoke.credential_account@ == admitted(before, ctx, skill_name@, credential_uri@).0,
        revoke.issuer@ == ctx.issuer_pubkey@,
        revoked.same_but_credentials(&minted),
        revoked.credentials() == minted.credentials().insert(
            revoke.credential_account@,
            (CredentialAccount {
                is_revoked: true,
                revoked_at: Some(revoke.now),
                ..minted.credentials()[revoke.credential_account@]
            }),
        ),
    ensures
        minted.credential_revoke_check(revoke) is None,
        minted.credential_validity(revoke.credential_account@) == Ok::<bool, CredVaultError>(true),
        revoked.credential_validity(revoke.credential_account@) == Ok::<bool, CredVaultError>(false),
        revoked.credential_revoke_check(revoke) == Some(CredVaultError::CredentialRevoked),
{
}

/// A metadata update signed by anyone but the credential's stored issuer
/// fails with `UnauthorizedIssuer`, whatever new values it carries; on that
/// error `update_metadata` leaves the store as it was.
pub proof fn law_update_metadata_needs_issuer(
    vault: Vault,
    ctx: UpdateMetadata,
    new_skill_name: Option<String>,
    new_credential_uri: Option<String>,
)
    requires
        vault.credentials().contains_key(ctx.credential_account@),
        vault.credentials()[ctx.credential_account@].issuer_pubkey@ != ctx.issuer@,
    ensures
        vault.credential_update_check(ctx, new_skill_name, new_credential_uri) == Some(
            CredVaultError::UnauthorizedIssuer,
        ),
{
}

/// An update that gives only a new GitHub link changes that link and keeps
/// the title, the description, the demo link and the owning student.
pub proof fn law_update_github_link_only(
    before: Vault,
    after: Vault,
    ctx: UpdateProofOfWorkMetadata,
    new_github_link: String,
)
    requires
        before.proof_of_work_update_check(ctx, None, None, Some(new_github_link), None) is None,
        ({
            let rec = before.proofs()[ctx.proof_of_work_account@];
            after.proofs() == before.proofs().insert(
                ctx.proof_of_work_account@,
                (ProofOfWorkAccount {
                    project_title: new_or_kept(None, rec.project_title),
                    project_description: new_or_kept(None, rec.project_description),
                    github_link: new_or_kept(Some(new_github_link), rec.github_link),
                    demo_link: new_or_kept(None, rec.demo_link),
                    ..rec
                }),
            )
        }),
    ensures
        ({
            let rec = before.proofs()[ctx.proof_of_work_account@];
            let updated = after.proofs()[ctx.proof_of_work_account@];
            &&& updated.github_link == new_github_link
            &&& updated.project_title == rec.project_title
            &&& updated.project_description == rec.project_description
            &&& updated.demo_link == rec.demo_link
            &&& updated.student_pubkey == rec.student_pubkey
        }),
{
}

} // verus!
