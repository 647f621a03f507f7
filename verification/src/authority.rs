//! The program-derived addresses: the configuration record's own address and
//! the keyless signing authority. Both are recomputed on every call from a
//! fixed seed and a stored one-byte verifier; only the derivation itself is
//! delegated to the platform.

use vstd::prelude::*;

use crate::ids::AccountId;

verus! {

/// The address that program-derived-address computation yields for the seed
/// pair `[seed, [bump]]` under a given program identity: `None` when the
/// derivation fails (the candidate point lies on the curve), otherwise the
/// derived 32-byte address.
pub uninterp spec fn pda_of(seed: Seq<u8>, bump: u8, program_id: Seq<u8>) -> Option<Seq<u8>>;

/// The bytes of an optionally derived identity.
pub open spec fn id_bytes_of(r: Option<AccountId>) -> Option<Seq<u8>> {
    match r {
        Some(a) => Some(a.bytes@),
        None => None,
    }
}

/// The fixed seed of the keyless signing authority: the bytes of "authority".
pub open spec fn authority_seed() -> Seq<u8> {
    seq![97u8, 117u8, 116u8, 104u8, 111u8, 114u8, 105u8, 116u8, 121u8]
}

/// The fixed seed of the configuration record's address: the bytes of "state".
pub open spec fn state_seed() -> Seq<u8> {
    seq![115u8, 116u8, 97u8, 116u8, 101u8]
}

/// Builds the authority seed as bytes.
pub fn authority_seed_bytes() -> (r: Vec<u8>)
    ensures
        r@ == authority_seed(),
{
    let mut v: Vec<u8> = Vec::new();
    v.push(97u8);
    v.push(117u8);
    v.push(116u8);
    v.push(104u8);
    v.push(111u8);
    v.push(114u8);
    v.push(105u8);
    v.push(116u8);
    v.push(121u8);
    proof {
        assert(v@ =~= authority_seed());
    }
    v
}

/// Builds the record seed as bytes.
pub fn state_seed_bytes() -> (r: Vec<u8>)
    ensures
        r@ == state_seed(),
{
    let mut v: Vec<u8> = Vec::new();
    v.push(115u8);
    v.push(116u8);
    v.push(97u8);
    v.push(116u8);
    v.push(101u8);
    proof {
        assert(v@ =~= state_seed());
    }
    v
}

/// Relies on solana_program's `Pubkey::create_program_address` (re-exported by
/// anchor_lang), applied to the seed pair `[seed, [bump]]`: the result is a
/// deterministic function of the seed bytes, the bump byte and the program
/// identity, and the call fails exactly when the candidate point lies on the
/// ed25519 curve. Seeds longer than 32 bytes would be refused outright, so
/// they are excluded here.
#[verifier::external_body]
pub(crate) fn derive_address(seed: &Vec<u8>, bump: u8, program_id: &AccountId) -> (r: Option<
    AccountId,
>)
    requires
        seed@.len() <= 32,
    ensures
        id_bytes_of(r) == pda_of(seed@, bump, program_id.bytes@),
{
    let pk = anchor_lang::prelude::Pubkey::new_from_array(program_id.bytes);
    match anchor_lang::prelude::Pubkey::create_program_address(&[seed.as_slice(), &[bump]], &pk) {
        Ok(a) => Some(AccountId { bytes: a.to_bytes() }),
        Err(_) => None,
    }
}

/// True exactly when `candidate` is the address that the fixed authority seed
/// and the verifier byte `bump` derive under `program_id`.
pub open spec fn authority_binding_holds(candidate: AccountId, bump: u8, program_id: AccountId) -> bool {
    pda_of(authority_seed(), bump, program_id.bytes@) == Some(candidate.bytes@)
}

/// True exactly when `candidate` is the address that the fixed record seed
/// and the verifier byte `bump` derive under `program_id`.
pub open spec fn state_binding_holds(candidate: AccountId, bump: u8, program_id: AccountId) -> bool {
    pda_of(state_seed(), bump, program_id.bytes@) == Some(candidate.bytes@)
}

/// Decides whether `candidate` is the signing authority that the stored
/// verifier byte re-derives.
pub fn check_authority_binding(candidate: &AccountId, bump: u8, program_id: &AccountId) -> (r:
    bool)
    ensures
        r == authority_binding_holds(*candidate, bump, *program_id),
{
    let seed = authority_seed_bytes();
    match derive_address(&seed, bump, program_id) {
        Some(derived) => {
            let eq = derived.eq_id(candidate);
            proof {
                if derived.bytes@ == candidate.bytes@ {
                    assert(derived.bytes =~= candidate.bytes);
                }
            }
            eq
        },
        None => false,
    }
}

/// Decides whether `candidate` is the record address that the stored verifier
/// byte re-derives.
pub fn check_state_binding(candidate: &AccountId, bump: u8, program_id: &AccountId) -> (r: bool)
    ensures
        r == state_binding_holds(*candidate, bump, *program_id),
{
    let seed = state_seed_bytes();
    match derive_address(&seed, bump, program_id) {
        Some(derived) => {
            let eq = derived.eq_id(candidate);
            proof {
                if derived.bytes@ == candidate.bytes@ {
                    assert(derived.bytes =~= candidate.bytes);
                }
            }
            eq
        },
        None => false,
    }
}

/// Derivation is a function: two addresses that both pass the authority
/// binding under the same verifier byte and program identity are the same
/// address, so at most one account can act as the signing authority.
pub proof fn lemma_authority_unique(a: AccountId, b: AccountId, bump: u8, program_id: AccountId)
    ensures
        authority_binding_holds(a, bump, program_id) && authority_binding_holds(
            b,
            bump,
            program_id,
        ) ==> a == b,
{
    if authority_binding_holds(a, bump, program_id) && authority_binding_holds(
        b,
        bump,
        program_id,
    ) {
        assert(a.bytes@ == b.bytes@);
        assert(a.bytes =~= b.bytes);
    }
}

} // verus!
