use cred_vault::accounts::{
    AdapterOutcome, InitializeIssuer, MintCredential, MintProofOfWork, RevokeCredential,
    UpdateMetadata, UpdateProofOfWorkMetadata, VerifyCredential, VerifyIssuer, VerifyProofOfWork,
};
use cred_vault::address::{
    credential_address, get_proof_of_work_seed, get_skill_seed, issuer_address,
    proof_of_work_address,
};
use cred_vault::error::CredVaultError;
use cred_vault::key::Key;
use cred_vault::token::{credential_metadata, proof_of_work_metadata};
use cred_vault::vault::Vault;

fn key(n: u8) -> Key {
    Key::new([n; 32])
}

const PROGRAM: u8 = 7;
const ADMIN: u8 = 9;
const ISSUER: u8 = 1;
const STUDENT: u8 = 2;
const OTHER: u8 = 3;

fn vault_with_issuer(verified: bool) -> (Vault, Key) {
    let mut vault = Vault::new(key(PROGRAM), key(ADMIN));
    let ctx = InitializeIssuer { authority: key(ISSUER), now: 100 };
    assert_eq!(vault.initialize_issuer(&ctx, 255), Ok(()));
    let issuer = issuer_address(&key(PROGRAM), &key(ISSUER)).unwrap().0;
    if verified {
        let v = VerifyIssuer { authority: key(ADMIN), issuer };
        assert_eq!(vault.verify_issuer(&v), Ok(()));
    }
    (vault, issuer)
}

fn mint_ctx(issuer: Key, now: i64, adapter: AdapterOutcome) -> MintCredential {
    MintCredential { issuer, issuer_pubkey: key(ISSUER), student: key(STUDENT), now, adapter }
}

fn mint_rust(vault: &mut Vault, issuer: Key) -> Result<(), CredVaultError> {
    vault.mint_credential(
        &mint_ctx(issuer, 200, AdapterOutcome::Completed),
        "Rust".to_string(),
        20240101,
        "ipfs://rust".to_string(),
    )
}

fn rust_address() -> Key {
    credential_address(&key(PROGRAM), &key(STUDENT), &key(ISSUER), "Rust").unwrap().0
}

#[test]
fn derive_is_deterministic() {
    let a = credential_address(&key(PROGRAM), &key(STUDENT), &key(ISSUER), "Rust").unwrap();
    let b = credential_address(&key(PROGRAM), &key(STUDENT), &key(ISSUER), "Rust").unwrap();
    assert_eq!(a.0, b.0);
    assert_eq!(a.1, b.1);
    let c = credential_address(&key(PROGRAM), &key(STUDENT), &key(ISSUER), "Go").unwrap();
    assert_ne!(a.0, c.0);
    let d = credential_address(&key(PROGRAM), &key(OTHER), &key(ISSUER), "Rust").unwrap();
    assert_ne!(a.0, d.0);
}

#[test]
fn derived_address_is_not_a_seed() {
    let a = issuer_address(&key(PROGRAM), &key(ISSUER)).unwrap().0;
    assert_ne!(a, key(ISSUER));
    assert_ne!(a, key(PROGRAM));
}

#[test]
fn long_skill_names_sharing_a_prefix_collide() {
    let prefix = "a".repeat(32);
    let first = format!("{}-first", prefix);
    let second = format!("{}-second", prefix);
    let a = credential_address(&key(PROGRAM), &key(STUDENT), &key(ISSUER), &first).unwrap();
    let b = credential_address(&key(PROGRAM), &key(STUDENT), &key(ISSUER), &second).unwrap();
    assert_eq!(a.0, b.0);

    let (mut vault, issuer) = vault_with_issuer(true);
    let ctx = mint_ctx(issuer, 200, AdapterOutcome::Completed);
    assert_eq!(vault.mint_credential(&ctx, first, 1, "u".to_string()), Ok(()));
    assert_eq!(
        vault.mint_credential(&ctx, second, 1, "u".to_string()),
        Err(CredVaultError::AlreadyExists)
    );
}

#[test]
fn seeds_are_cut_to_32_bytes() {
    let long = "x".repeat(40);
    assert_eq!(get_skill_seed(&long), vec![b'x'; 32]);
    assert_eq!(get_skill_seed("Rust"), b"Rust".to_vec());
    assert_eq!(get_proof_of_work_seed(&long).len(), 32);
    assert_eq!(get_proof_of_work_seed("Compiler Project"), b"Compiler Project".to_vec());
    assert_eq!(get_skill_seed(""), Vec::<u8>::new());
}

#[test]
fn initialize_issuer_twice_fails() {
    let (mut vault, issuer) = vault_with_issuer(false);
    let rec = vault.issuer(&issuer).unwrap();
    assert_eq!(rec.issuer_pubkey, key(ISSUER));
    assert!(!rec.is_verified);
    assert_eq!(rec.created_at, 100);
    assert_eq!(rec.bump, 255);
    let ctx = InitializeIssuer { authority: key(ISSUER), now: 300 };
    assert_eq!(vault.initialize_issuer(&ctx, 255), Err(CredVaultError::AlreadyExists));
    assert_eq!(vault.issuer(&issuer).unwrap().created_at, 100);
}

#[test]
fn only_the_authority_verifies_issuers() {
    let (mut vault, issuer) = vault_with_issuer(false);
    let bad = VerifyIssuer { authority: key(OTHER), issuer };
    assert_eq!(vault.verify_issuer(&bad), Err(CredVaultError::UnauthorizedAuthority));
    assert!(!vault.issuer(&issuer).unwrap().is_verified);
    let missing = VerifyIssuer { authority: key(ADMIN), issuer: key(42) };
    assert_eq!(vault.verify_issuer(&missing), Err(CredVaultError::NotFound));
    let good = VerifyIssuer { authority: key(ADMIN), issuer };
    assert_eq!(vault.verify_issuer(&good), Ok(()));
    assert!(vault.issuer(&issuer).unwrap().is_verified);
}

#[test]
fn mint_credential_twice_fails_the_second_time() {
    let (mut vault, issuer) = vault_with_issuer(true);
    assert_eq!(mint_rust(&mut vault, issuer), Ok(()));
    assert_eq!(mint_rust(&mut vault, issuer), Err(CredVaultError::AlreadyExists));
}

#[test]
fn mint_credential_records_its_fields() {
    let (mut vault, issuer) = vault_with_issuer(true);
    assert_eq!(mint_rust(&mut vault, issuer), Ok(()));
    let rec = vault.credential(&rust_address()).unwrap();
    assert_eq!(rec.issuer_pubkey, key(ISSUER));
    assert_eq!(rec.student_pubkey, key(STUDENT));
    assert_eq!(rec.skill_name, "Rust");
    assert_eq!(rec.issue_date, 20240101);
    assert_eq!(rec.credential_uri, "ipfs://rust");
    assert!(rec.is_soulbound);
    assert!(!rec.is_revoked);
    assert_eq!(rec.created_at, 200);
    assert_eq!(rec.revoked_at, None);
    let expected_bump = credential_address(&key(PROGRAM), &key(STUDENT), &key(ISSUER), "Rust").unwrap().1;
    assert_eq!(rec.bump, expected_bump);
}

#[test]
fn unverified_issuer_cannot_mint() {
    let (mut vault, issuer) = vault_with_issuer(false);
    assert_eq!(mint_rust(&mut vault, issuer), Err(CredVaultError::IssuerNotVerified));
    let mut other_signer = mint_ctx(issuer, 0, AdapterOutcome::Failed);
    other_signer.issuer_pubkey = key(OTHER);
    assert_eq!(
        vault.mint_credential(&other_signer, "x".repeat(80), 1, String::new()),
        Err(CredVaultError::IssuerNotVerified)
    );
    assert!(vault.credential(&rust_address()).is_none());
}

#[test]
fn mint_credential_needs_the_issuer_signer() {
    let (mut vault, issuer) = vault_with_issuer(true);
    let mut ctx = mint_ctx(issuer, 200, AdapterOutcome::Completed);
    ctx.issuer_pubkey = key(OTHER);
    assert_eq!(
        vault.mint_credential(&ctx, "Rust".to_string(), 1, "u".to_string()),
        Err(CredVaultError::UnauthorizedIssuer)
    );
}

#[test]
fn mint_credential_needs_an_issuer_record() {
    let mut vault = Vault::new(key(PROGRAM), key(ADMIN));
    let ctx = mint_ctx(key(42), 200, AdapterOutcome::Completed);
    assert_eq!(
        vault.mint_credential(&ctx, "Rust".to_string(), 1, "u".to_string()),
        Err(CredVaultError::NotFound)
    );
}

#[test]
fn mint_credential_rejects_long_fields() {
    let (mut vault, issuer) = vault_with_issuer(true);
    let ctx = mint_ctx(issuer, 200, AdapterOutcome::Completed);
    assert_eq!(
        vault.mint_credential(&ctx, "s".repeat(51), 1, "u".to_string()),
        Err(CredVaultError::FieldTooLong)
    );
    assert_eq!(
        vault.mint_credential(&ctx, "Rust".to_string(), 1, "u".repeat(101)),
        Err(CredVaultError::FieldTooLong)
    );
    assert_eq!(vault.mint_credential(&ctx, "s".repeat(50), 1, "u".repeat(100)), Ok(()));
}

#[test]
fn adapter_failure_leaves_no_record() {
    let (mut vault, issuer) = vault_with_issuer(true);
    let ctx = mint_ctx(issuer, 200, AdapterOutcome::Failed);
    assert_eq!(
        vault.mint_credential(&ctx, "Rust".to_string(), 1, "u".to_string()),
        Err(CredVaultError::AdapterFailure)
    );
    let verify = VerifyCredential { credential_account: rust_address() };
    assert_eq!(vault.verify_credential(&verify), Err(CredVaultError::NotFound));
    assert_eq!(mint_rust(&mut vault, issuer), Ok(()));
}

#[test]
fn verify_after_mint_and_after_revoke() {
    let (mut vault, issuer) = vault_with_issuer(true);
    assert_eq!(mint_rust(&mut vault, issuer), Ok(()));
    let verify = VerifyCredential { credential_account: rust_address() };
    assert_eq!(vault.verify_credential(&verify), Ok(true));
    let revoke = RevokeCredential { credential_account: rust_address(), issuer: key(ISSUER), now: 300 };
    assert_eq!(vault.revoke_credential(&revoke), Ok(()));
    assert_eq!(vault.verify_credential(&verify), Ok(false));
}

#[test]
fn credential_lifecycle_scenario() {
    let (mut vault, issuer) = vault_with_issuer(true);
    let ctx = mint_ctx(issuer, 1_700_000_000, AdapterOutcome::Completed);
    assert_eq!(
        vault.mint_credential(&ctx, "Rust".to_string(), 1_699_999_999, "ipfs://u".to_string()),
        Ok(())
    );
    let verify = VerifyCredential { credential_account: rust_address() };
    assert_eq!(vault.verify_credential(&verify), Ok(true));
    let revoke = RevokeCredential { credential_account: rust_address(), issuer: key(ISSUER), now: 1_700_000_100 };
    assert_eq!(vault.revoke_credential(&revoke), Ok(()));
    assert_eq!(vault.verify_credential(&verify), Ok(false));
    let again = RevokeCredential { now: 1_700_000_200, ..revoke };
    assert_eq!(vault.revoke_credential(&again), Err(CredVaultError::CredentialRevoked));
    assert_eq!(vault.credential(&rust_address()).unwrap().revoked_at, Some(1_700_000_100));
}

#[test]
fn credential_created_at_zero_is_not_valid() {
    let (mut vault, issuer) = vault_with_issuer(true);
    let ctx = mint_ctx(issuer, 0, AdapterOutcome::Completed);
    assert_eq!(vault.mint_credential(&ctx, "Rust".to_string(), 1, "u".to_string()), Ok(()));
    let verify = VerifyCredential { credential_account: rust_address() };
    assert_eq!(vault.verify_credential(&verify), Ok(false));
}

#[test]
fn revoke_needs_the_issuer() {
    let (mut vault, issuer) = vault_with_issuer(true);
    assert_eq!(mint_rust(&mut vault, issuer), Ok(()));
    let revoke = RevokeCredential { credential_account: rust_address(), issuer: key(OTHER), now: 300 };
    assert_eq!(vault.revoke_credential(&revoke), Err(CredVaultError::UnauthorizedIssuer));
    assert!(!vault.credential(&rust_address()).unwrap().is_revoked);
    let missing = RevokeCredential { credential_account: key(42), issuer: key(ISSUER), now: 300 };
    assert_eq!(vault.revoke_credential(&missing), Err(CredVaultError::NotFound));
}

#[test]
fn update_metadata_by_another_signer_fails() {
    let (mut vault, issuer) = vault_with_issuer(true);
    assert_eq!(mint_rust(&mut vault, issuer), Ok(()));
    let ctx = UpdateMetadata {
        credential_account: rust_address(),
        issuer: key(OTHER),
        adapter: AdapterOutcome::Completed,
    };
    assert_eq!(
        vault.update_metadata(&ctx, Some("Go".to_string()), Some("ipfs://go".to_string())),
        Err(CredVaultError::UnauthorizedIssuer)
    );
    let rec = vault.credential(&rust_address()).unwrap();
    assert_eq!(rec.skill_name, "Rust");
    assert_eq!(rec.credential_uri, "ipfs://rust");
    assert_eq!(rec.issue_date, 20240101);
    assert!(!rec.is_revoked);
}

#[test]
fn update_metadata_changes_given_fields() {
    let (mut vault, issuer) = vault_with_issuer(true);
    assert_eq!(mint_rust(&mut vault, issuer), Ok(()));
    let ctx = UpdateMetadata {
        credential_account: rust_address(),
        issuer: key(ISSUER),
        adapter: AdapterOutcome::Completed,
    };
    assert_eq!(vault.update_metadata(&ctx, None, Some("ipfs://v2".to_string())), Ok(()));
    let rec = vault.credential(&rust_address()).unwrap();
    assert_eq!(rec.skill_name, "Rust");
    assert_eq!(rec.credential_uri, "ipfs://v2");
    assert_eq!(vault.update_metadata(&ctx, Some("Rust 2".to_string()), None), Ok(()));
    let rec = vault.credential(&rust_address()).unwrap();
    assert_eq!(rec.skill_name, "Rust 2");
    assert_eq!(rec.credential_uri, "ipfs://v2");
    assert_eq!(
        vault.update_metadata(&ctx, Some("n".repeat(51)), None),
        Err(CredVaultError::FieldTooLong)
    );
    let failed = UpdateMetadata { adapter: AdapterOutcome::Failed, ..ctx };
    assert_eq!(
        vault.update_metadata(&failed, Some("Zig".to_string()), None),
        Err(CredVaultError::AdapterFailure)
    );
    assert_eq!(vault.credential(&rust_address()).unwrap().skill_name, "Rust 2");
}

#[test]
fn update_metadata_on_revoked_credential_fails() {
    let (mut vault, issuer) = vault_with_issuer(true);
    assert_eq!(mint_rust(&mut vault, issuer), Ok(()));
    let revoke = RevokeCredential { credential_account: rust_address(), issuer: key(ISSUER), now: 300 };
    assert_eq!(vault.revoke_credential(&revoke), Ok(()));
    let ctx = UpdateMetadata {
        credential_account: rust_address(),
        issuer: key(ISSUER),
        adapter: AdapterOutcome::Completed,
    };
    assert_eq!(
        vault.update_metadata(&ctx, Some("Go".to_string()), None),
        Err(CredVaultError::CredentialRevoked)
    );
}

fn mint_compiler(vault: &mut Vault) -> Result<(), CredVaultError> {
    let ctx = MintProofOfWork { student: key(STUDENT), now: 500, adapter: AdapterOutcome::Completed };
    vault.mint_proof_of_work(
        &ctx,
        "Compiler Project".to_string(),
        "A small compiler".to_string(),
        "https://github.com/s/compiler".to_string(),
        "https://demo.example/compiler".to_string(),
    )
}

fn compiler_address() -> Key {
    proof_of_work_address(&key(PROGRAM), &key(STUDENT), "Compiler Project").unwrap().0
}

#[test]
fn proof_of_work_keeps_its_student_after_transfer() {
    let mut vault = Vault::new(key(PROGRAM), key(ADMIN));
    assert_eq!(mint_compiler(&mut vault), Ok(()));
    // The token changes hands outside the vault; the record is untouched.
    let rec = vault.proof_of_work(&compiler_address()).unwrap();
    assert_eq!(rec.student_pubkey, key(STUDENT));
    assert!(rec.is_transferable);
    assert_eq!(rec.project_title, "Compiler Project");
    assert_eq!(rec.timestamp, 500);
    assert_eq!(rec.created_at, 500);
    let verify = VerifyProofOfWork { proof_of_work_account: compiler_address() };
    assert_eq!(vault.verify_proof_of_work(&verify), Ok(true));
}

#[test]
fn proof_of_work_twice_fails() {
    let mut vault = Vault::new(key(PROGRAM), key(ADMIN));
    assert_eq!(mint_compiler(&mut vault), Ok(()));
    assert_eq!(mint_compiler(&mut vault), Err(CredVaultError::AlreadyExists));
}

#[test]
fn proof_of_work_rejects_long_fields_and_adapter_failure() {
    let mut vault = Vault::new(key(PROGRAM), key(ADMIN));
    let ctx = MintProofOfWork { student: key(STUDENT), now: 500, adapter: AdapterOutcome::Completed };
    let short = || "s".to_string();
    assert_eq!(
        vault.mint_proof_of_work(&ctx, "t".repeat(101), short(), short(), short()),
        Err(CredVaultError::FieldTooLong)
    );
    assert_eq!(
        vault.mint_proof_of_work(&ctx, short(), "d".repeat(501), short(), short()),
        Err(CredVaultError::FieldTooLong)
    );
    assert_eq!(
        vault.mint_proof_of_work(&ctx, short(), short(), "g".repeat(201), short()),
        Err(CredVaultError::FieldTooLong)
    );
    assert_eq!(
        vault.mint_proof_of_work(&ctx, short(), short(), short(), "l".repeat(201)),
        Err(CredVaultError::FieldTooLong)
    );
    let failed = MintProofOfWork { adapter: AdapterOutcome::Failed, ..ctx };
    assert_eq!(
        vault.mint_proof_of_work(&failed, short(), short(), short(), short()),
        Err(CredVaultError::AdapterFailure)
    );
    let verify = VerifyProofOfWork {
        proof_of_work_account: proof_of_work_address(&key(PROGRAM), &key(STUDENT), "s").unwrap().0,
    };
    assert_eq!(vault.verify_proof_of_work(&verify), Err(CredVaultError::NotFound));
}

#[test]
fn update_proof_of_work_github_link_only() {
    let mut vault = Vault::new(key(PROGRAM), key(ADMIN));
    assert_eq!(mint_compiler(&mut vault), Ok(()));
    let ctx = UpdateProofOfWorkMetadata {
        proof_of_work_account: compiler_address(),
        student: key(STUDENT),
        adapter: AdapterOutcome::Completed,
    };
    assert_eq!(
        vault.update_proof_of_work_metadata(&ctx, None, None, Some("https://github.com/s/v2".to_string()), None),
        Ok(())
    );
    let rec = vault.proof_of_work(&compiler_address()).unwrap();
    assert_eq!(rec.github_link, "https://github.com/s/v2");
    assert_eq!(rec.project_title, "Compiler Project");
    assert_eq!(rec.project_description, "A small compiler");
    assert_eq!(rec.demo_link, "https://demo.example/compiler");
    assert_eq!(rec.student_pubkey, key(STUDENT));
}

#[test]
fn update_proof_of_work_by_another_student_fails() {
    let mut vault = Vault::new(key(PROGRAM), key(ADMIN));
    assert_eq!(mint_compiler(&mut vault), Ok(()));
    let ctx = UpdateProofOfWorkMetadata {
        proof_of_work_account: compiler_address(),
        student: key(OTHER),
        adapter: AdapterOutcome::Completed,
    };
    assert_eq!(
        vault.update_proof_of_work_metadata(&ctx, Some("Stolen".to_string()), None, None, None),
        Err(CredVaultError::UnauthorizedUpdate)
    );
    assert_eq!(vault.proof_of_work(&compiler_address()).unwrap().project_title, "Compiler Project");
    let missing = UpdateProofOfWorkMetadata { proof_of_work_account: key(42), ..ctx };
    assert_eq!(
        vault.update_proof_of_work_metadata(&missing, None, None, None, None),
        Err(CredVaultError::NotFound)
    );
}

#[test]
fn update_proof_of_work_all_fields() {
    let mut vault = Vault::new(key(PROGRAM), key(ADMIN));
    assert_eq!(mint_compiler(&mut vault), Ok(()));
    let ctx = UpdateProofOfWorkMetadata {
        proof_of_work_account: compiler_address(),
        student: key(STUDENT),
        adapter: AdapterOutcome::Completed,
    };
    assert_eq!(
        vault.update_proof_of_work_metadata(
            &ctx,
            Some("Compiler v2".to_string()),
            Some("Bigger".to_string()),
            Some("g2".to_string()),
            Some("d2".to_string())
        ),
        Ok(())
    );
    let rec = vault.proof_of_work(&compiler_address()).unwrap();
    assert_eq!(rec.project_title, "Compiler v2");
    assert_eq!(rec.project_description, "Bigger");
    assert_eq!(rec.github_link, "g2");
    assert_eq!(rec.demo_link, "d2");
    assert_eq!(
        vault.update_proof_of_work_metadata(&ctx, None, Some("d".repeat(501)), None, None),
        Err(CredVaultError::FieldTooLong)
    );
    let failed = UpdateProofOfWorkMetadata { adapter: AdapterOutcome::Failed, ..ctx };
    assert_eq!(
        vault.update_proof_of_work_metadata(&failed, None, None, None, Some("d3".to_string())),
        Err(CredVaultError::AdapterFailure)
    );
    assert_eq!(vault.proof_of_work(&compiler_address()).unwrap().demo_link, "d2");
}

#[test]
fn token_metadata_follows_the_record() {
    let (mut vault, issuer) = vault_with_issuer(true);
    assert_eq!(mint_rust(&mut vault, issuer), Ok(()));
    let meta = credential_metadata(vault.credential(&rust_address()).unwrap());
    assert_eq!(meta.name, "Rust");
    assert_eq!(meta.symbol, "CRED");
    assert_eq!(meta.uri, "ipfs://rust");
    assert_eq!(meta.seller_fee_basis_points, 0);
    assert!(!meta.is_mutable);

    assert_eq!(mint_compiler(&mut vault), Ok(()));
    let rec = vault.proof_of_work(&compiler_address()).unwrap();
    let meta = proof_of_work_metadata(rec, "https://arweave.net/x".to_string());
    assert_eq!(meta.name, "Compiler Project");
    assert_eq!(meta.symbol, "POW");
    assert_eq!(meta.uri, "https://arweave.net/x");
    assert_eq!(meta.seller_fee_basis_points, 500);
    assert!(meta.is_mutable);
}
