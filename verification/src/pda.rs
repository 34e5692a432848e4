//! Deterministic address derivation.
//!
//! A derived address is computed from a seed list and a program id by a
//! one-way hash over a restricted address space; the `bump` nonce is the
//! value found by bounded search that makes the derivation land inside
//! that space. Re-deriving the address from the recorded bump is the
//! structural proof of authority over the derived account.

use vstd::prelude::*;
use crate::addr::Address;
use anchor_lang::solana_program::pubkey::Pubkey;

verus! {

/// What `create_program_address` returns for a seed list, a bump and a
/// program id: `Some(address)` when the hash of the seeds, the bump and
/// the program id lands off the ed25519 curve, `None` when it does not
/// or when the seed list itself is rejected. Uninterpreted here: the
/// address is a digest, a pure function of its arguments.
pub uninterp spec fn pda_at(seeds: Seq<Seq<u8>>, bump: u8, program: Seq<u8>) -> Option<Seq<u8>>;

/// The bounded bump search: the first bump among `high, high - 1, ..., 1`
/// at which the derivation lands in the valid address space. Bump 0 is
/// never tried; an exhausted search is `None`.
pub open spec fn pda_search(seeds: Seq<Seq<u8>>, program: Seq<u8>, high: int) -> Option<(Seq<u8>, u8)>
    decreases high,
{
    if high < 1 {
        None
    } else {
        match pda_at(seeds, high as u8, program) {
            Some(a) => Some((a, high as u8)),
            None => pda_search(seeds, program, high - 1),
        }
    }
}

/// The canonical derivation for a seed list: the address and bump found
/// by searching downward from bump 255.
pub open spec fn pda_of(seeds: Seq<Seq<u8>>, program: Seq<u8>) -> Option<(Seq<u8>, u8)> {
    pda_search(seeds, program, 255)
}

/// A successful bounded search reports a bump that re-derives exactly
/// the address it found.
pub proof fn lemma_search_sound(seeds: Seq<Seq<u8>>, program: Seq<u8>, high: int, a: Seq<u8>, b: u8)
    requires
        high <= 255,
        pda_search(seeds, program, high) == Some((a, b)),
    ensures
        pda_at(seeds, b, program) == Some(a),
        1 <= b <= high,
    decreases high,
{
    if high >= 1 {
        if pda_at(seeds, high as u8, program) is Some {
        } else {
            lemma_search_sound(seeds, program, high - 1, a, b);
        }
    }
}

/// The canonical derivation re-derives its own address from its own bump.
pub proof fn lemma_derivation_sound(seeds: Seq<Seq<u8>>, program: Seq<u8>, a: Seq<u8>, b: u8)
    requires
        pda_of(seeds, program) == Some((a, b)),
    ensures
        pda_at(seeds, b, program) == Some(a),
{
    lemma_search_sound(seeds, program, 255, a, b);
}

/// Relies on `Pubkey::create_program_address` (anchor_lang's re-export of
/// solana_pubkey): hashes the seed list, the bump and the program id;
/// `Ok` exactly when the digest is off-curve and the seed list is within
/// the runtime's seed limits — a pure function of the arguments.
#[verifier::external_body]
pub(crate) fn create_pda(seeds: &Vec<Vec<u8>>, bump: u8, program: &Address) -> (r: Option<Address>)
    ensures
        match r {
            Some(a) => pda_at(seeds.deep_view(), bump, program@) == Some(a@),
            None => pda_at(seeds.deep_view(), bump, program@) is None,
        },
{
    let mut seed_slices: Vec<&[u8]> = seeds.iter().map(|s| s.as_slice()).collect();
    let bump_slice = [bump];
    seed_slices.push(&bump_slice);
    let pid = Pubkey::new_from_array(program.bytes);
    match Pubkey::create_program_address(&seed_slices, &pid) {
        Ok(pk) => Some(Address { bytes: pk.to_bytes() }),
        Err(_) => None,
    }
}

/// Relies on `Pubkey::try_find_program_address` (anchor_lang's re-export
/// of solana_pubkey): searches bumps 255 down to 1 and returns the first
/// pair at which `create_program_address` succeeds, `None` when the
/// search is exhausted or the seed list is rejected.
#[verifier::external_body]
pub(crate) fn find_pda(seeds: &Vec<Vec<u8>>, program: &Address) -> (r: Option<(Address, u8)>)
    ensures
        match r {
            Some(p) => pda_of(seeds.deep_view(), program@) == Some((p.0@, p.1)),
            None => pda_of(seeds.deep_view(), program@) is None,
        },
{
    let seed_slices: Vec<&[u8]> = seeds.iter().map(|s| s.as_slice()).collect();
    let pid = Pubkey::new_from_array(program.bytes);
    match Pubkey::try_find_program_address(&seed_slices, &pid) {
        Some((pk, bump)) => Some((Address { bytes: pk.to_bytes() }, bump)),
        None => None,
    }
}

/// The domain tag that prefixes every state-record derivation.
pub open spec fn state_tag() -> Seq<u8> {
    seq![115u8, 116u8, 97u8, 116u8, 101u8]
}

/// The executable domain tag: the ASCII bytes of "state".
pub fn state_tag_bytes() -> (r: Vec<u8>)
    ensures
        r@ == state_tag(),
{
    let mut v: Vec<u8> = Vec::new();
    v.push(115);
    v.push(116);
    v.push(97);
    v.push(116);
    v.push(101);
    proof {
        assert(v@ =~= state_tag());
    }
    v
}

/// The seed list of a state-record derivation: the domain tag, then the
/// owner identity.
pub open spec fn state_seeds(owner: Seq<u8>) -> Seq<Seq<u8>> {
    seq![state_tag(), owner]
}

/// The seed list of a vault derivation: the state record's own address.
pub open spec fn vault_seeds(state_address: Seq<u8>) -> Seq<Seq<u8>> {
    seq![state_address]
}

/// The canonical state-record derivation for an owner.
pub open spec fn spec_state_derivation(program: Seq<u8>, owner: Seq<u8>) -> Option<(Seq<u8>, u8)> {
    pda_of(state_seeds(owner), program)
}

/// The canonical vault derivation, seeded by the state record's address.
pub open spec fn spec_vault_derivation(program: Seq<u8>, state_address: Seq<u8>) -> Option<(Seq<u8>, u8)> {
    pda_of(vault_seeds(state_address), program)
}

/// Derives the state record's address and bump from the owner identity.
/// `None` reports an exhausted bump search, never an arbitrary result.
pub fn derive_state_address(program: &Address, owner: &Address) -> (r: Option<(Address, u8)>)
    ensures
        match r {
            Some(p) => spec_state_derivation(program@, owner@) == Some((p.0@, p.1)),
            None => spec_state_derivation(program@, owner@) is None,
        },
{
    let mut seeds: Vec<Vec<u8>> = Vec::new();
    seeds.push(state_tag_bytes());
    seeds.push(owner.to_vec());
    proof {
        assert(seeds.deep_view() =~~= state_seeds(owner@));
    }
    find_pda(&seeds, program)
}

/// Derives the vault account's address and bump from the state record's
/// address.
pub fn derive_vault_address(program: &Address, state_address: &Address) -> (r: Option<(Address, u8)>)
    ensures
        match r {
            Some(p) => spec_vault_derivation(program@, state_address@) == Some((p.0@, p.1)),
            None => spec_vault_derivation(program@, state_address@) is None,
        },
{
    let mut seeds: Vec<Vec<u8>> = Vec::new();
    seeds.push(state_address.to_vec());
    proof {
        assert(seeds.deep_view() =~~= vault_seeds(state_address@));
    }
    find_pda(&seeds, program)
}

/// Checks a recorded state bump: the supplied address must be exactly
/// what the bump re-derives from the owner identity.
pub fn check_state_address(program: &Address, owner: &Address, bump: u8, supplied: &Address) -> (r: bool)
    ensures
        r == (pda_at(state_seeds(owner@), bump, program@) == Some(supplied@)),
{
    let mut seeds: Vec<Vec<u8>> = Vec::new();
    seeds.push(state_tag_bytes());
    seeds.push(owner.to_vec());
    proof {
        assert(seeds.deep_view() =~~= state_seeds(owner@));
    }
    match create_pda(&seeds, bump, program) {
        Some(a) => a.equals(supplied),
        None => false,
    }
}

/// Checks a recorded vault bump: the supplied address must be exactly
/// what the bump re-derives from the state record's address.
pub fn check_vault_address(program: &Address, state_address: &Address, bump: u8, supplied: &Address) -> (r: bool)
    ensures
        r == (pda_at(vault_seeds(state_address@), bump, program@) == Some(supplied@)),
{
    let mut seeds: Vec<Vec<u8>> = Vec::new();
    seeds.push(state_address.to_vec());
    proof {
        assert(seeds.deep_view() =~~= vault_seeds(state_address@));
    }
    match create_pda(&seeds, bump, program) {
        Some(a) => a.equals(supplied),
        None => false,
    }
}

/// The persisted state record: exactly the two derivation nonces, one
/// per owner, written once at initialization and never overwritten.
#[derive(Clone, Copy, Debug, PartialEq, Eq, Structural)]
pub struct VaultState {
    /// The nonce that re-derives the vault account's address from the
    /// state record's own address.
    pub vault_bump: u8,
    /// The nonce that re-derives the state record's own address from
    /// the owner identity.
    pub state_bump: u8,
}

/// Structural signing authority over a vault account: the state record's
/// address plus the recorded vault bump, which together reproduce the
/// vault's derivation. No private key is involved.
pub struct SeedProof {
    pub state_address: Address,
    pub vault_bump: u8,
}

impl SeedProof {
    /// The proof authorizes exactly the vault address that its bump
    /// re-derives from its state record's address.
    pub open spec fn authorizes(&self, program: Seq<u8>, vault_address: Seq<u8>) -> bool {
        pda_at(vault_seeds(self.state_address@), self.vault_bump, program) == Some(vault_address)
    }
}

/// Rebuilds signing authority over a vault from its persisted record:
/// only the record's own address and the recorded nonce are needed, no
/// secret of any kind.
pub fn reconstruct_signing_authority(state_address: &Address, record: &VaultState) -> (r: SeedProof)
    ensures
        r.state_address == *state_address,
        r.vault_bump == record.vault_bump,
{
    SeedProof { state_address: *state_address, vault_bump: record.vault_bump }
}

} // verus!
