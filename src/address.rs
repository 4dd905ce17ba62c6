use vstd::prelude::*;
use vstd::utf8::encode_utf8;
use anchor_lang::solana_program::pubkey::Pubkey;
use crate::key::Key;

verus! {

/// Longest text seed, in bytes; longer text is cut to its first bytes.
pub const MAX_TEXT_SEED: usize = 32;

/// The seed that a text field contributes to an address: its UTF-8 bytes,
/// cut to the first `MAX_TEXT_SEED`.
pub open spec fn seed_of(text: Seq<char>) -> Seq<u8> {
    let bytes = encode_utf8(text);
    if bytes.len() > MAX_TEXT_SEED {
        bytes.take(MAX_TEXT_SEED as int)
    } else {
        bytes
    }
}

/// The program address and bump that the seeds and the program id derive.
pub uninterp spec fn program_address_of(seeds: Seq<Seq<u8>>, program_id: Seq<u8>) -> Option<(Seq<u8>, u8)>;

/// `r` is what a derivation answered, as keys.
pub open spec fn derived_as(r: Option<(Key, u8)>, d: Option<(Seq<u8>, u8)>) -> bool {
    match r {
        Some(found) => d == Some((found.0@, found.1)),
        None => d is None,
    }
}

/// The views of a list of byte strings.
pub open spec fn seeds_view(seeds: Seq<Vec<u8>>) -> Seq<Seq<u8>> {
    seeds.map_values(|s: Vec<u8>| s@)
}

/// ASCII "issuer".
pub open spec fn issuer_tag() -> Seq<u8> {
    seq![105u8, 115u8, 115u8, 117u8, 101u8, 114u8]
}

/// ASCII "credential".
pub open spec fn credential_tag() -> Seq<u8> {
    seq![99u8, 114u8, 101u8, 100u8, 101u8, 110u8, 116u8, 105u8, 97u8, 108u8]
}

/// ASCII "proof-of-work".
pub open spec fn proof_of_work_tag() -> Seq<u8> {
    seq![112u8, 114u8, 111u8, 111u8, 102u8, 45u8, 111u8, 102u8, 45u8, 119u8, 111u8, 114u8, 107u8]
}

pub open spec fn issuer_seeds(authority: Seq<u8>) -> Seq<Seq<u8>> {
    seq![issuer_tag(), authority]
}

pub open spec fn credential_seeds(student: Seq<u8>, issuer: Seq<u8>, skill_name: Seq<char>) -> Seq<Seq<u8>> {
    seq![credential_tag(), student, issuer, seed_of(skill_name)]
}

pub open spec fn proof_of_work_seeds(student: Seq<u8>, title: Seq<char>) -> Seq<Seq<u8>> {
    seq![proof_of_work_tag(), student, seed_of(title)]
}

/// Relies on `Pubkey::try_find_program_address` (solana-address, re-exported
/// by anchor-lang): the address and bump are a function of the seeds and the
/// program id alone, and `None` comes back when no bump gives an address.
#[verifier::external_body]
fn find_program_address(seeds: &Vec<Vec<u8>>, program_id: &Key) -> (r: Option<(Key, u8)>)
    ensures
        derived_as(r, program_address_of(seeds_view(seeds@), program_id@)),
{
    let refs: Vec<&[u8]> = seeds.iter().map(|s| s.as_slice()).collect();
    let program = Pubkey::new_from_array(program_id.bytes);
    match Pubkey::try_find_program_address(&refs, &program) {
        Some((found, bump)) => Some((Key { bytes: found.to_bytes() }, bump)),
        None => None,
    }
}

fn key_seed(k: &Key) -> (r: Vec<u8>)
    ensures
        r@ == k@,
{
    let mut r: Vec<u8> = Vec::new();
    let mut i: usize = 0;
    while i < 32
        invariant
            0 <= i <= 32,
            k@.len() == 32,
            r@ == k@.take(i as int),
        decreases 32 - i,
    {
        r.push(k.bytes[i]);
        i = i + 1;
        assert(r@ =~= k@.take(i as int));
    }
    assert(k@.take(32) =~= k@);
    r
}

fn truncated_seed(text: &str) -> (r: Vec<u8>)
    ensures
        r@ == seed_of(text@),
{
    let bytes = text.as_bytes();
    let n: usize = if bytes.len() > MAX_TEXT_SEED { MAX_TEXT_SEED } else { bytes.len() };
    let mut r: Vec<u8> = Vec::new();
    let mut i: usize = 0;
    while i < n
        invariant
            0 <= i <= n,
            n <= bytes@.len(),
            bytes@ == encode_utf8(text@),
            n == if bytes@.len() > MAX_TEXT_SEED { MAX_TEXT_SEED as int } else { bytes@.len() as int },
            r@ == bytes@.take(i as int),
        decreases n - i,
    {
        r.push(bytes[i]);
        i = i + 1;
        assert(r@ =~= bytes@.take(i as int));
    }
    assert(bytes@.len() <= MAX_TEXT_SEED ==> bytes@.take(n as int) =~= bytes@);
    r
}

/// The address seed of a skill name.
pub fn get_skill_seed(skill_name: &str) -> (r: Vec<u8>)
    ensures
        r@ == seed_of(skill_name@),
{
    truncated_seed(skill_name)
}

/// The address seed of a project title.
pub fn get_proof_of_work_seed(project_title: &str) -> (r: Vec<u8>)
    ensures
        r@ == seed_of(project_title@),
{
    truncated_seed(project_title)
}

/// The address of the issuer record of `authority`.
pub fn issuer_address(program_id: &Key, authority: &Key) -> (r: Option<(Key, u8)>)
    ensures
        derived_as(r, program_address_of(issuer_seeds(authority@), program_id@)),
{
    let tag: Vec<u8> = vec![105u8, 115u8, 115u8, 117u8, 101u8, 114u8];
    let mut seeds: Vec<Vec<u8>> = Vec::new();
    seeds.push(tag);
    seeds.push(key_seed(authority));
    assert(seeds_view(seeds@) =~= issuer_seeds(authority@));
    find_program_address(&seeds, program_id)
}

/// The address of the credential of `student` from `issuer` in `skill_name`.
pub fn credential_address(program_id: &Key, student: &Key, issuer: &Key, skill_name: &str) -> (r: Option<(Key, u8)>)
    ensures
        derived_as(r, program_address_of(credential_seeds(student@, issuer@, skill_name@), program_id@)),
{
    let tag: Vec<u8> = vec![99u8, 114u8, 101u8, 100u8, 101u8, 110u8, 116u8, 105u8, 97u8, 108u8];
    let mut seeds: Vec<Vec<u8>> = Vec::new();
    seeds.push(tag);
    seeds.push(key_seed(student));
    seeds.push(key_seed(issuer));
    seeds.push(get_skill_seed(skill_name));
    assert(seeds_view(seeds@) =~= credential_seeds(student@, issuer@, skill_name@));
    find_program_address(&seeds, program_id)
}

/// The address of the proof-of-work record of `student` for `project_title`.
pub fn proof_of_work_address(program_id: &Key, student: &Key, project_title: &str) -> (r: Option<(Key, u8)>)
    ensures
        derived_as(r, program_address_of(proof_of_work_seeds(student@, project_title@), program_id@)),
{
    let tag: Vec<u8> = vec![112u8, 114u8, 111u8, 111u8, 102u8, 45u8, 111u8, 102u8, 45u8, 119u8, 111u8, 114u8, 107u8];
    let mut seeds: Vec<Vec<u8>> = Vec::new();
    seeds.push(tag);
    seeds.push(key_seed(student));
    seeds.push(get_proof_of_work_seed(project_title));
    assert(seeds_view(seeds@) =~= proof_of_work_seeds(student@, project_title@));
    find_program_address(&seeds, program_id)
}

} // verus!
