use solana_program::pubkey::Pubkey;
use vstd::prelude::*;

verus! {

/// A 32-byte ledger identity: an account address or a public key.
pub type Key = [u8; 32];

/// The longest seed the ledger accepts when deriving an address.
pub const MAX_SEED_LEN: usize = 32;

/// The highest nonce tried; the search runs from here down to zero.
pub const MAX_NONCE: u8 = 255;

/// The address that the ledger derives from `seeds` under `program_id`, or
/// `None` where no program-owned address exists for them.
pub uninterp spec fn program_address_of(seeds: Seq<Seq<u8>>, program_id: Seq<u8>) -> Option<Seq<u8>>;

/// The seeds of a campaign: tag, owner, name and the nonce as one byte.
pub open spec fn campaign_seeds(tag: Seq<u8>, owner: Seq<u8>, name: Seq<u8>, nonce: u8) -> Seq<Seq<u8>> {
    seq![tag, owner, name, seq![nonce]]
}

pub open spec fn key_option_view(k: Option<Key>) -> Option<Seq<u8>> {
    match k {
        Some(a) => Some(a@),
        None => None,
    }
}

/// The address of a campaign for one given nonce, if that nonce gives one.
pub open spec fn address_at(tag: Seq<u8>, owner: Seq<u8>, name: Seq<u8>, nonce: u8, program_id: Seq<u8>) -> Option<Seq<u8>> {
    program_address_of(campaign_seeds(tag, owner, name, nonce), program_id)
}

/// Relies on `Pubkey::create_program_address`: it hashes the seeds with the
/// program id and fails where a seed is over `MAX_SEED_LEN` bytes or the
/// hash is a point on the curve.
#[verifier::external_body]
fn program_address(tag: &[u8], owner: &Key, name: &[u8], nonce: u8, program_id: &Key) -> (r: Option<Key>)
    ensures
        key_option_view(r) == program_address_of(campaign_seeds(tag@, owner@, name@, nonce), program_id@),
        tag@.len() > MAX_SEED_LEN || name@.len() > MAX_SEED_LEN ==> r is None,
{
    let bump = [nonce];
    let seeds: [&[u8]; 4] = [tag, owner, name, &bump];
    let program = Pubkey::new_from_array(*program_id);
    Pubkey::create_program_address(&seeds, &program).ok().map(|p| p.to_bytes())
}

/// The nonce search from `from` down to zero: the first nonce that gives an
/// address, with that address.
pub open spec fn search_from(tag: Seq<u8>, owner: Seq<u8>, name: Seq<u8>, program_id: Seq<u8>, from: int) -> Option<(Seq<u8>, u8)>
    decreases from + 1,
{
    if from < 0 {
        None
    } else {
        match address_at(tag, owner, name, from as u8, program_id) {
            Some(a) => Some((a, from as u8)),
            None => search_from(tag, owner, name, program_id, from - 1),
        }
    }
}

/// The derived campaign address and its nonce.
pub open spec fn derive_spec(tag: Seq<u8>, owner: Seq<u8>, name: Seq<u8>, program_id: Seq<u8>) -> Option<(Seq<u8>, u8)> {
    search_from(tag, owner, name, program_id, MAX_NONCE as int)
}

pub open spec fn derived_view(r: Option<(Key, u8)>) -> Option<(Seq<u8>, u8)> {
    match r {
        Some((a, n)) => Some((a@, n)),
        None => None,
    }
}

/// Whether two keys hold the same bytes.
pub fn keys_equal(a: &Key, b: &Key) -> (r: bool)
    ensures
        r == (a@ == b@),
{
    let mut i: usize = 0;
    while i < 32
        invariant
            i <= 32,
            forall|j: int| 0 <= j < i ==> a@[j] == b@[j],
        decreases 32 - i,
    {
        if a[i] != b[i] {
            return false;
        }
        i = i + 1;
    }
    assert(a@ =~= b@);
    true
}

/// Derives the address of the campaign `name` of `owner`: nonces are tried
/// from `MAX_NONCE` down to zero and the first that gives a program-owned
/// address wins.
pub fn derive_address(tag: &[u8], owner: &Key, name: &[u8], program_id: &Key) -> (r: Option<(Key, u8)>)
    ensures
        derived_view(r) == derive_spec(tag@, owner@, name@, program_id@),
{
    let mut next: u16 = 256;
    while next > 0
        invariant
            next <= 256,
            derive_spec(tag@, owner@, name@, program_id@) == search_from(tag@, owner@, name@, program_id@, next - 1),
        decreases next,
    {
        next = next - 1;
        let nonce = next as u8;
        assert(nonce as int == next as int);
        match program_address(tag, owner, name, nonce, program_id) {
            Some(a) => {
                return Some((a, nonce));
            },
            None => {},
        }
    }
    None
}

/// Whether `address` is the campaign address for the given seeds and nonce:
/// the check made on every transition against the stored nonce.
pub fn verify_address(tag: &[u8], owner: &Key, name: &[u8], nonce: u8, program_id: &Key, address: &Key) -> (r: bool)
    ensures
        r == (address_at(tag@, owner@, name@, nonce, program_id@) == Some(address@)),
{
    match program_address(tag, owner, name, nonce, program_id) {
        Some(a) => keys_equal(&a, address),
        None => false,
    }
}

/// Derivation is a function of its inputs: the result is the one address
/// and nonce such that the nonce gives that address and no higher nonce
/// gives any, and there is none exactly when no nonce gives an address.
pub proof fn lemma_derive_determined(tag: Seq<u8>, owner: Seq<u8>, name: Seq<u8>, program_id: Seq<u8>, address: Seq<u8>, nonce: u8)
    ensures
        derive_spec(tag, owner, name, program_id) == Some((address, nonce)) <==> (
            address_at(tag, owner, name, nonce, program_id) == Some(address)
            && forall|k: u8| nonce < k ==> address_at(tag, owner, name, k, program_id) is None),
        derive_spec(tag, owner, name, program_id) is None <==> forall|k: u8| address_at(tag, owner, name, k, program_id) is None,
{
    lemma_search_from(tag, owner, name, program_id, address, nonce, MAX_NONCE as int);
}

proof fn lemma_search_from(tag: Seq<u8>, owner: Seq<u8>, name: Seq<u8>, program_id: Seq<u8>, address: Seq<u8>, nonce: u8, from: int)
    requires
        -1 <= from <= 255,
    ensures
        search_from(tag, owner, name, program_id, from) == Some((address, nonce)) <==> (
            nonce <= from
            && address_at(tag, owner, name, nonce, program_id) == Some(address)
            && forall|k: u8| nonce < k <= from ==> address_at(tag, owner, name, k, program_id) is None),
        search_from(tag, owner, name, program_id, from) is None <==> forall|k: u8| k <= from ==> address_at(tag, owner, name, k, program_id) is None,
    decreases from + 1,
{
    if from >= 0 {
        lemma_search_from(tag, owner, name, program_id, address, nonce, from - 1);
        let f = from as u8;
        assert(f as int == from);
        if address_at(tag, owner, name, f, program_id) is None {
            assert((forall|k: u8| k <= from - 1 ==> address_at(tag, owner, name, k, program_id) is None)
                ==> (forall|k: u8| k <= from ==> address_at(tag, owner, name, k, program_id) is None));
        }
    }
}

} // verus!
