use vstd::prelude::*;
use vstd::utf8::encode_utf8;
use crate::accounts::{
    AdapterOutcome, CredentialAccount, InitializeIssuer, IssuerAccount, MintCredential,
    MintProofOfWork, ProofOfWorkAccount, RevokeCredential, UpdateMetadata,
    UpdateProofOfWorkMetadata, VerifyCredential, VerifyIssuer, VerifyProofOfWork,
    MAX_CREDENTIAL_URI, MAX_LINK, MAX_PROJECT_DESCRIPTION, MAX_PROJECT_TITLE, MAX_SKILL_NAME,
};
use crate::address::{
    credential_address, credential_seeds, issuer_address, issuer_seeds, proof_of_work_address,
    proof_of_work_seeds, program_address_of,
};
use crate::error::CredVaultError;
use crate::key::Key;
use crate::store::{lemma_push, lemma_update, position_of, records_of, unique_addresses};

verus! {

/// Length of the UTF-8 encoding of a text, in bytes.
pub open spec fn byte_len(text: Seq<char>) -> usize {
    encode_utf8(text).len() as usize
}

/// A new value is given and is longer than `max` bytes.
pub open spec fn too_long(new: Option<String>, max: usize) -> bool {
    match new {
        Some(text) => byte_len(text@) > max,
        None => false,
    }
}

/// The new value where one is given, else the current one.
pub open spec fn new_or_kept(new: Option<String>, current: String) -> String {
    match new {
        Some(text) => text,
        None => current,
    }
}

fn exceeds(new: &Option<String>, max: usize) -> (r: bool)
    ensures
        r == too_long(*new, max),
{
    match new {
        Some(text) => text_len(text) > max,
        None => false,
    }
}

fn text_len(text: &String) -> (r: usize)
    ensures
        r == byte_len(text@),
{
    text.as_str().len()
}

/// The record store: issuer, credential and proof-of-work records, each at
/// its address, and the authority that verifies issuers.
pub struct Vault {
    program_id: Key,
    authority: Key,
    issuers: Vec<(Key, IssuerAccount)>,
    credentials: Vec<(Key, CredentialAccount)>,
    proofs: Vec<(Key, ProofOfWorkAccount)>,
}

impl Vault {
    /// The program id that every address is derived under.
    pub closed spec fn program_id(&self) -> Seq<u8> {
        self.program_id@
    }

    /// The key that may verify issuers.
    pub closed spec fn authority(&self) -> Seq<u8> {
        self.authority@
    }

    /// The issuer records, by address.
    pub closed spec fn issuers(&self) -> Map<Seq<u8>, IssuerAccount> {
        records_of(self.issuers@)
    }

    /// The credential records, by address.
    pub closed spec fn credentials(&self) -> Map<Seq<u8>, CredentialAccount> {
        records_of(self.credentials@)
    }

    /// The proof-of-work records, by address.
    pub closed spec fn proofs(&self) -> Map<Seq<u8>, ProofOfWorkAccount> {
        records_of(self.proofs@)
    }

    pub closed spec fn wf(&self) -> bool {
        &&& unique_addresses(self.issuers@)
        &&& unique_addresses(self.credentials@)
        &&& unique_addresses(self.proofs@)
    }

    /// `self` and `other` differ at most in their issuer records.
    pub open spec fn same_but_issuers(&self, other: &Vault) -> bool {
        &&& self.program_id() == other.program_id()
        &&& self.authority() == other.authority()
        &&& self.credentials() == other.credentials()
        &&& self.proofs() == other.proofs()
    }

    /// `self` and `other` differ at most in their credential records.
    pub open spec fn same_but_credentials(&self, other: &Vault) -> bool {
        &&& self.program_id() == other.program_id()
        &&& self.authority() == other.authority()
        &&& self.issuers() == other.issuers()
        &&& self.proofs() == other.proofs()
    }

    /// `self` and `other` differ at most in their proof-of-work records.
    pub open spec fn same_but_proofs(&self, other: &Vault) -> bool {
        &&& self.program_id() == other.program_id()
        &&& self.authority() == other.authority()
        &&& self.issuers() == other.issuers()
        &&& self.credentials() == other.credentials()
    }

    /// An empty store for the program `program_id`, whose issuers `authority` verifies.
    pub fn new(program_id: Key, authority: Key) -> (r: Vault)
        ensures
            r.wf(),
            r.program_id() == program_id@,
            r.authority() == authority@,
            r.issuers() == Map::<Seq<u8>, IssuerAccount>::empty(),
            r.credentials() == Map::<Seq<u8>, CredentialAccount>::empty(),
            r.proofs() == Map::<Seq<u8>, ProofOfWorkAccount>::empty(),
    {
        let r = Vault {
            program_id,
            authority,
            issuers: Vec::new(),
            credentials: Vec::new(),
            proofs: Vec::new(),
        };
        assert(r.issuers() =~= Map::<Seq<u8>, IssuerAccount>::empty());
        assert(r.credentials() =~= Map::<Seq<u8>, CredentialAccount>::empty());
        assert(r.proofs() =~= Map::<Seq<u8>, ProofOfWorkAccount>::empty());
        r
    }

    /// The issuer record at `address`.
    pub fn issuer(&self, address: &Key) -> (r: Option<&IssuerAccount>)
        requires
            self.wf(),
        ensures
            match r {
                Some(rec) => self.issuers().contains_key(address@) && *rec == self.issuers()[address@],
                None => !self.issuers().contains_key(address@),
            },
    {
        match position_of(&self.issuers, address) {
            Some(i) => Some(&self.issuers[i].1),
            None => None,
        }
    }

    /// The credential record at `address`.
    pub fn credential(&self, address: &Key) -> (r: Option<&CredentialAccount>)
        requires
            self.wf(),
        ensures
            match r {
                Some(rec) => self.credentials().contains_key(address@) && *rec == self.credentials()[address@],
                None => !self.credentials().contains_key(address@),
            },
    {
        match position_of(&self.credentials, address) {
            Some(i) => Some(&self.credentials[i].1),
            None => None,
        }
    }

    /// The proof-of-work record at `address`.
    pub fn proof_of_work(&self, address: &Key) -> (r: Option<&ProofOfWorkAccount>)
        requires
            self.wf(),
        ensures
            match r {
                Some(rec) => self.proofs().contains_key(address@) && *rec == self.proofs()[address@],
                None => !self.proofs().contains_key(address@),
            },
    {
        match position_of(&self.proofs, address) {
            Some(i) => Some(&self.proofs[i].1),
            None => None,
        }
    }

    /// Creates the issuer record of `ctx.authority`, unverified.
    pub fn initialize_issuer(&mut self, ctx: &InitializeIssuer, bump: u8) -> (r: Result<(), CredVaultError>)
        requires
            old(self).wf(),
        ensures
            final(self).wf(),
            match program_address_of(issuer_seeds(ctx.authority@), old(self).program_id()) {
                None => r == Err::<(), CredVaultError>(CredVaultError::InvalidSeeds) && *final(self) == *old(self),
                Some(found) => if old(self).issuers().contains_key(found.0) {
                    r == Err::<(), CredVaultError>(CredVaultError::AlreadyExists) && *final(self) == *old(self)
                } else {
                    &&& r is Ok
                    &&& final(self).same_but_issuers(old(self))
                    &&& final(self).issuers() == old(self).issuers().insert(found.0, (IssuerAccount {
                        issuer_pubkey: ctx.authority,
                        bump,
                        is_verified: false,
                        created_at: ctx.now,
                    }))
                },
            },
    {
        let address = match issuer_address(&self.program_id, &ctx.authority) {
            Some(found) => found.0,
            None => return Err(CredVaultError::InvalidSeeds),
        };
        if position_of(&self.issuers, &address).is_some() {
            return Err(CredVaultError::AlreadyExists);
        }
        let rec = IssuerAccount { issuer_pubkey: ctx.authority, bump, is_verified: false, created_at: ctx.now };
        proof {
            lemma_push(self.issuers@, address, rec);
        }
        self.issuers.push((address, rec));
        Ok(())
    }

    /// Marks the issuer record at `ctx.issuer` verified; only the vault
    /// authority may do so.
    pub fn verify_issuer(&mut self, ctx: &VerifyIssuer) -> (r: Result<(), CredVaultError>)
        requires
            old(self).wf(),
        ensures
            final(self).wf(),
            if ctx.authority@ != old(self).authority() {
                r == Err::<(), CredVaultError>(CredVaultError::UnauthorizedAuthority) && *final(self) == *old(self)
            } else if !old(self).issuers().contains_key(ctx.issuer@) {
                r == Err::<(), CredVaultError>(CredVaultError::NotFound) && *final(self) == *old(self)
            } else {
                &&& r is Ok
                &&& final(self).same_but_issuers(old(self))
                &&& final(self).issuers() == old(self).issuers().insert(ctx.issuer@, (IssuerAccount {
                    is_verified: true,
                    ..old(self).issuers()[ctx.issuer@]
                }))
            },
    {
        if !ctx.authority.same(&self.authority) {
            return Err(CredVaultError::UnauthorizedAuthority);
        }
        let i = match position_of(&self.issuers, &ctx.issuer) {
            Some(i) => i,
            None => return Err(CredVaultError::NotFound),
        };
        let (k, mut rec) = self.issuers.remove(i);
        rec.is_verified = true;
        proof {
            lemma_update(old(self).issuers@, i as int, rec);
        }
        self.issuers.insert(i, (k, rec));
        assert(self.issuers@ =~= old(self).issuers@.update(i as int, (k, rec)));
        Ok(())
    }

    /// What issuing a credential with these inputs comes to: the address and
    /// bump of the new record, or the first check that fails.
    pub open spec fn credential_mint_check(
        &self,
        ctx: MintCredential,
        skill_name: Seq<char>,
        credential_uri: Seq<char>,
    ) -> Result<(Seq<u8>, u8), CredVaultError> {
        if !self.issuers().contains_key(ctx.issuer@) {
            Err(CredVaultError::NotFound)
        } else if !self.issuers()[ctx.issuer@].is_verified {
            Err(CredVaultError::IssuerNotVerified)
        } else if self.issuers()[ctx.issuer@].issuer_pubkey@ != ctx.issuer_pubkey@ {
            Err(CredVaultError::UnauthorizedIssuer)
        } else if !(program_address_of(issuer_seeds(ctx.issuer_pubkey@), self.program_id()) matches Some(
            found,
        ) && found.0 == ctx.issuer@) {
            Err(CredVaultError::InvalidIssuerAccount)
        } else if byte_len(skill_name) > MAX_SKILL_NAME || byte_len(credential_uri) > MAX_CREDENTIAL_URI {
            Err(CredVaultError::FieldTooLong)
        } else {
            match program_address_of(
                credential_seeds(ctx.student@, ctx.issuer_pubkey@, skill_name),
                self.program_id(),
            ) {
                None => Err(CredVaultError::InvalidSeeds),
                Some(found) => if self.credentials().contains_key(found.0) {
                    Err(CredVaultError::AlreadyExists)
                } else if ctx.adapter == AdapterOutcome::Failed {
                    Err(CredVaultError::AdapterFailure)
                } else {
                    Ok(found)
                },
            }
        }
    }

    /// Issues a soulbound credential to `ctx.student`, all or nothing: on any
    /// failure the store is left as it was.
    pub fn mint_credential(
        &mut self,
        ctx: &MintCredential,
        skill_name: String,
        issue_date: i64,
        credential_uri: String,
    ) -> (r: Result<(), CredVaultError>)
        requires
            old(self).wf(),
        ensures
            final(self).wf(),
            match old(self).credential_mint_check(*ctx, skill_name@, credential_uri@) {
                Err(e) => r == Err::<(), CredVaultError>(e) && *final(self) == *old(self),
                Ok(found) => {
                    &&& r is Ok
                    &&& final(self).same_but_credentials(old(self))
                    &&& final(self).credentials() == old(self).credentials().insert(found.0, (CredentialAccount {
                        issuer_pubkey: ctx.issuer_pubkey,
                        student_pubkey: ctx.student,
                        skill_name,
                        issue_date,
                        credential_uri,
                        is_soulbound: true,
                        is_revoked: false,
                        created_at: ctx.now,
                        revoked_at: None,
                        bump: found.1,
                    }))
                },
            },
    {
        let i = match position_of(&self.issuers, &ctx.issuer) {
            Some(i) => i,
            None => return Err(CredVaultError::NotFound),
        };
        let issuer = &self.issuers[i].1;
        if !issuer.is_verified {
            return Err(CredVaultError::IssuerNotVerified);
        }
        if !issuer.issuer_pubkey.same(&ctx.issuer_pubkey) {
            return Err(CredVaultError::UnauthorizedIssuer);
        }
        match issuer_address(&self.program_id, &ctx.issuer_pubkey) {
            Some(found) => {
                if !found.0.same(&ctx.issuer) {
                    return Err(CredVaultError::InvalidIssuerAccount);
                }
            },
            None => return Err(CredVaultError::InvalidIssuerAccount),
        }
        if text_len(&skill_name) > MAX_SKILL_NAME || text_len(&credential_uri) > MAX_CREDENTIAL_URI {
            return Err(CredVaultError::FieldTooLong);
        }
        let (address, bump) = match credential_address(
            &self.program_id,
            &ctx.student,
            &ctx.issuer_pubkey,
            skill_name.as_str(),
        ) {
            Some(found) => found,
            None => return Err(CredVaultError::InvalidSeeds),
        };
        if position_of(&self.credentials, &address).is_some() {
            return Err(CredVaultError::AlreadyExists);
        }
        match ctx.adapter {
            AdapterOutcome::Failed => return Err(CredVaultError::AdapterFailure),
            AdapterOutcome::Completed => {},
        }
        let rec = CredentialAccount {
            issuer_pubkey: ctx.issuer_pubkey,
            student_pubkey: ctx.student,
            skill_name,
            issue_date,
            credential_uri,
            is_soulbound: true,
            is_revoked: false,
            created_at: ctx.now,
            revoked_at: None,
            bump,
        };
        proof {
            lemma_push(self.credentials@, address, rec);
        }
        self.credentials.push((address, rec));
        Ok(())
    }

    /// Whether the credential at `address` is valid: not revoked and created
    /// at a positive time; `NotFound` where no credential lives there.
    pub open spec fn credential_validity(&self, address: Seq<u8>) -> Result<bool, CredVaultError> {
        if self.credentials().contains_key(address) {
            Ok(!self.credentials()[address].is_revoked && self.credentials()[address].created_at > 0)
        } else {
            Err(CredVaultError::NotFound)
        }
    }

    /// Whether the credential at `ctx.credential_account` is valid: present,
    /// not revoked, and created at a positive time.
    pub fn verify_credential(&self, ctx: &VerifyCredential) -> (r: Result<bool, CredVaultError>)
        requires
            self.wf(),
        ensures
            r == self.credential_validity(ctx.credential_account@),
    {
        match self.credential(&ctx.credential_account) {
            Some(rec) => Ok(!rec.is_revoked && rec.created_at > 0),
            None => Err(CredVaultError::NotFound),
        }
    }

    /// What changing a credential's metadata with these inputs comes to: the
    /// first check that fails, if any.
    pub open spec fn credential_update_check(
        &self,
        ctx: UpdateMetadata,
        new_skill_name: Option<String>,
        new_credential_uri: Option<String>,
    ) -> Option<CredVaultError> {
        if !self.credentials().contains_key(ctx.credential_account@) {
            Some(CredVaultError::NotFound)
        } else if self.credentials()[ctx.credential_account@].issuer_pubkey@ != ctx.issuer@ {
            Some(CredVaultError::UnauthorizedIssuer)
        } else if self.credentials()[ctx.credential_account@].is_revoked {
            Some(CredVaultError::CredentialRevoked)
        } else if too_long(new_skill_name, MAX_SKILL_NAME) || too_long(new_credential_uri, MAX_CREDENTIAL_URI) {
            Some(CredVaultError::FieldTooLong)
        } else if ctx.adapter == AdapterOutcome::Failed {
            Some(CredVaultError::AdapterFailure)
        } else {
            None
        }
    }

    /// Replaces the skill name and URI of a credential where new ones are
    /// given; only its issuer may do so, and only while it is not revoked.
    pub fn update_metadata(
        &mut self,
        ctx: &UpdateMetadata,
        new_skill_name: Option<String>,
        new_credential_uri: Option<String>,
    ) -> (r: Result<(), CredVaultError>)
        requires
            old(self).wf(),
        ensures
            final(self).wf(),
            match old(self).credential_update_check(*ctx, new_skill_name, new_credential_uri) {
                Some(e) => r == Err::<(), CredVaultError>(e) && *final(self) == *old(self),
                None => {
                    let rec = old(self).credentials()[ctx.credential_account@];
                    &&& r is Ok
                    &&& final(self).same_but_credentials(old(self))
                    &&& final(self).credentials() == old(self).credentials().insert(ctx.credential_account@, (CredentialAccount {
                        skill_name: new_or_kept(new_skill_name, rec.skill_name),
                        credential_uri: new_or_kept(new_credential_uri, rec.credential_uri),
                        ..rec
                    }))
                },
            },
    {
        let i = match position_of(&self.credentials, &ctx.credential_account) {
            Some(i) => i,
            None => return Err(CredVaultError::NotFound),
        };
        if !self.credentials[i].1.issuer_pubkey.same(&ctx.issuer) {
            return Err(CredVaultError::UnauthorizedIssuer);
        }
        if self.credentials[i].1.is_revoked {
            return Err(CredVaultError::CredentialRevoked);
        }
        if exceeds(&new_skill_name, MAX_SKILL_NAME) || exceeds(&new_credential_uri, MAX_CREDENTIAL_URI) {
            return Err(CredVaultError::FieldTooLong);
        }
        match ctx.adapter {
            AdapterOutcome::Failed => return Err(CredVaultError::AdapterFailure),
            AdapterOutcome::Completed => {},
        }
        let (k, mut rec) = self.credentials.remove(i);
        if let Some(name) = new_skill_name {
            rec.skill_name = name;
        }
        if let Some(uri) = new_credential_uri {
            rec.credential_uri = uri;
        }
        proof {
            lemma_update(old(self).credentials@, i as int, rec);
        }
        self.credentials.insert(i, (k, rec));
        assert(self.credentials@ =~= old(self).credentials@.update(i as int, (k, rec)));
        Ok(())
    }

    /// What revoking with these inputs comes to: the first check that fails,
    /// if any.
    pub open spec fn credential_revoke_check(&self, ctx: RevokeCredential) -> Option<CredVaultError> {
        if !self.credentials().contains_key(ctx.credential_account@) {
            Some(CredVaultError::NotFound)
        } else if self.credentials()[ctx.credential_account@].issuer_pubkey@ != ctx.issuer@ {
            Some(CredVaultError::UnauthorizedIssuer)
        } else if self.credentials()[ctx.credential_account@].is_revoked {
            Some(CredVaultError::CredentialRevoked)
        } else {
            None
        }
    }

    /// Revokes an active credential; only its issuer may do so, and a revoked
    /// credential stays revoked.
    pub fn revoke_credential(&mut self, ctx: &RevokeCredential) -> (r: Result<(), CredVaultError>)
        requires
            old(self).wf(),
        ensures
            final(self).wf(),
            match old(self).credential_revoke_check(*ctx) {
                Some(e) => r == Err::<(), CredVaultError>(e) && *final(self) == *old(self),
                None => {
                    &&& r is Ok
                    &&& final(self).same_but_credentials(old(self))
                    &&& final(self).credentials() == old(self).credentials().insert(ctx.credential_account@, (CredentialAccount {
                        is_revoked: true,
                        revoked_at: Some(ctx.now),
                        ..old(self).credentials()[ctx.credential_account@]
                    }))
                },
            },
    {
        let i = match position_of(&self.credentials, &ctx.credential_account) {
            Some(i) => i,
            None => return Err(CredVaultError::NotFound),
        };
        if !self.credentials[i].1.issuer_pubkey.same(&ctx.issuer) {
            return Err(CredVaultError::UnauthorizedIssuer);
        }
        if self.credentials[i].1.is_revoked {
            return Err(CredVaultError::CredentialRevoked);
        }
        let (k, mut rec) = self.credentials.remove(i);
        rec.is_revoked = true;
        rec.revoked_at = Some(ctx.now);
        proof {
            lemma_update(old(self).credentials@, i as int, rec);
        }
        self.credentials.insert(i, (k, rec));
        assert(self.credentials@ =~= old(self).credentials@.update(i as int, (k, rec)));
        Ok(())
    }

    /// What a student's proof-of-work issuance with these inputs comes to: the
    /// address and bump of the new record, or the first check that fails.
    pub open spec fn proof_of_work_mint_check(
        &self,
        ctx: MintProofOfWork,
        project_title: Seq<char>,
        project_description: Seq<char>,
        github_link: Seq<char>,
        demo_link: Seq<char>,
    ) -> Result<(Seq<u8>, u8), CredVaultError> {
        if byte_len(project_title) > MAX_PROJECT_TITLE || byte_len(project_description) > MAX_PROJECT_DESCRIPTION
            || byte_len(github_link) > MAX_LINK || byte_len(demo_link) > MAX_LINK {
            Err(CredVaultError::FieldTooLong)
        } else {
            match program_address_of(proof_of_work_seeds(ctx.student@, project_title), self.program_id()) {
                None => Err(CredVaultError::InvalidSeeds),
                Some(found) => if self.proofs().contains_key(found.0) {
                    Err(CredVaultError::AlreadyExists)
                } else if ctx.adapter == AdapterOutcome::Failed {
                    Err(CredVaultError::AdapterFailure)
                } else {
                    Ok(found)
                },
            }
        }
    }

    /// Records a student's project and its transferable token, all or
    /// nothing: on any failure the store is left as it was.
    pub fn mint_proof_of_work(
        &mut self,
        ctx: &MintProofOfWork,
        project_title: String,
        project_description: String,
        github_link: String,
        demo_link: String,
    ) -> (r: Result<(), CredVaultError>)
        requires
            old(self).wf(),
        ensures
            final(self).wf(),
            match old(self).proof_of_work_mint_check(*ctx, project_title@, project_description@, github_link@, demo_link@) {
                Err(e) => r == Err::<(), CredVaultError>(e) && *final(self) == *old(self),
                Ok(found) => {
                    &&& r is Ok
                    &&& final(self).same_but_proofs(old(self))
                    &&& final(self).proofs() == old(self).proofs().insert(found.0, (ProofOfWorkAccount {
                        student_pubkey: ctx.student,
                        project_title,
                        project_description,
                        github_link,
                        demo_link,
                        timestamp: ctx.now,
                        is_transferable: true,
                        created_at: ctx.now,
                        bump: found.1,
                    }))
                },
            },
    {
        if text_len(&project_title) > MAX_PROJECT_TITLE || text_len(&project_description) > MAX_PROJECT_DESCRIPTION
            || text_len(&github_link) > MAX_LINK || text_len(&demo_link) > MAX_LINK {
            return Err(CredVaultError::FieldTooLong);
        }
        let (address, bump) = match proof_of_work_address(&self.program_id, &ctx.student, project_title.as_str()) {
            Some(found) => found,
            None => return Err(CredVaultError::InvalidSeeds),
        };
        if position_of(&self.proofs, &address).is_some() {
            return Err(CredVaultError::AlreadyExists);
        }
        match ctx.adapter {
            AdapterOutcome::Failed => return Err(CredVaultError::AdapterFailure),
            AdapterOutcome::Completed => {},
        }
        let rec = ProofOfWorkAccount {
            student_pubkey: ctx.student,
            project_title,
            project_description,
            github_link,
            demo_link,
            timestamp: ctx.now,
            is_transferable: true,
            created_at: ctx.now,
            bump,
        };
        proof {
            lemma_push(self.proofs@, address, rec);
        }
        self.proofs.push((address, rec));
        Ok(())
    }

    /// Whether the proof-of-work record at `address` is valid: created at a
    /// positive time; `NotFound` where no record lives there.
    pub open spec fn proof_of_work_validity(&self, address: Seq<u8>) -> Result<bool, CredVaultError> {
        if self.proofs().contains_key(address) {
            Ok(self.proofs()[address].created_at > 0)
        } else {
            Err(CredVaultError::NotFound)
        }
    }

    /// Whether the proof-of-work record at `ctx.proof_of_work_account` is
    /// valid: present and created at a positive time.
    pub fn verify_proof_of_work(&self, ctx: &VerifyProofOfWork) -> (r: Result<bool, CredVaultError>)
        requires
            self.wf(),
        ensures
            r == self.proof_of_work_validity(ctx.proof_of_work_account@),
    {
        match self.proof_of_work(&ctx.proof_of_work_account) {
            Some(rec) => Ok(rec.created_at > 0),
            None => Err(CredVaultError::NotFound),
        }
    }

    /// What changing a proof-of-work record with these inputs comes to: the
    /// first check that fails, if any.
    pub open spec fn proof_of_work_update_check(
        &self,
        ctx: UpdateProofOfWorkMetadata,
        new_project_title: Option<String>,
        new_project_description: Option<String>,
        new_github_link: Option<String>,
        new_demo_link: Option<String>,
    ) -> Option<CredVaultError> {
        if !self.proofs().contains_key(ctx.proof_of_work_account@) {
            Some(CredVaultError::NotFound)
        } else if self.proofs()[ctx.proof_of_work_account@].student_pubkey@ != ctx.student@ {
            Some(CredVaultError::UnauthorizedUpdate)
        } else if too_long(new_project_title, MAX_PROJECT_TITLE) || too_long(new_project_description, MAX_PROJECT_DESCRIPTION)
            || too_long(new_github_link, MAX_LINK) || too_long(new_demo_link, MAX_LINK) {
            Some(CredVaultError::FieldTooLong)
        } else if ctx.adapter == AdapterOutcome::Failed {
            Some(CredVaultError::AdapterFailure)
        } else {
            None
        }
    }

    /// Replaces the descriptive fields of a proof-of-work record where new
    /// ones are given; only the owning student may do so.
    pub fn update_proof_of_work_metadata(
        &mut self,
        ctx: &UpdateProofOfWorkMetadata,
        new_project_title: Option<String>,
        new_project_description: Option<String>,
        new_github_link: Option<String>,
        new_demo_link: Option<String>,
    ) -> (r: Result<(), CredVaultError>)
        requires
            old(self).wf(),
        ensures
            final(self).wf(),
            match old(self).proof_of_work_update_check(
                *ctx,
                new_project_title,
                new_project_description,
                new_github_link,
                new_demo_link,
            ) {
                Some(e) => r == Err::<(), CredVaultError>(e) && *final(self) == *old(self),
                None => {
                    let rec = old(self).proofs()[ctx.proof_of_work_account@];
                    &&& r is Ok
                    &&& final(self).same_but_proofs(old(self))
                    &&& final(self).proofs() == old(self).proofs().insert(ctx.proof_of_work_account@, (ProofOfWorkAccount {
                        project_title: new_or_kept(new_project_title, rec.project_title),
                        project_description: new_or_kept(new_project_description, rec.project_description),
                        github_link: new_or_kept(new_github_link, rec.github_link),
                        demo_link: new_or_kept(new_demo_link, rec.demo_link),
                        ..rec
                    }))
                },
            },
    {
        let i = match position_of(&self.proofs, &ctx.proof_of_work_account) {
            Some(i) => i,
            None => return Err(CredVaultError::NotFound),
        };
        if !self.proofs[i].1.student_pubkey.same(&ctx.student) {
            return Err(CredVaultError::UnauthorizedUpdate);
        }
        if exceeds(&new_project_title, MAX_PROJECT_TITLE) || exceeds(&new_project_description, MAX_PROJECT_DESCRIPTION)
            || exceeds(&new_github_link, MAX_LINK) || exceeds(&new_demo_link, MAX_LINK) {
            return Err(CredVaultError::FieldTooLong);
        }
        match ctx.adapter {
            AdapterOutcome::Failed => return Err(CredVaultError::AdapterFailure),
            AdapterOutcome::Completed => {},
        }
        let (k, mut rec) = self.proofs.remove(i);
        if let Some(title) = new_project_title {
            rec.project_title = title;
        }
        if let Some(description) = new_project_description {
            rec.project_description = description;
        }
        if let Some(github) = new_github_link {
            rec.github_link = github;
        }
        if let Some(demo) = new_demo_link {
            rec.demo_link = demo;
        }
        proof {
            lemma_update(old(self).proofs@, i as int, rec);
        }
        self.proofs.insert(i, (k, rec));
        assert(self.proofs@ =~= old(self).proofs@.update(i as int, (k, rec)));
        Ok(())
    }
}

} // verus!
