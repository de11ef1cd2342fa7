//! Identities and derived addresses.
//!
//! Every record and every custody account lives at an address that is a pure
//! function of the program's own identity and a list of seeds. No private key
//! belongs to such an address: only the program that derived it can act for it.

use crate::title::{trim_bytes, trimmed};
use anchor_lang::prelude::Pubkey;
use vstd::prelude::*;
use vstd::slice::slice_to_vec;
use vstd::string::StringSliceAdditionalSpecFns;

verus! {

/// Most seeds one derivation takes, the nonce included.
pub const MAX_SEEDS: usize = 16;

/// Most bytes one seed holds.
pub const MAX_SEED_LEN: usize = 32;

/// A 32-byte identity: of a participant, an asset, an account or a program.
#[derive(Clone, Copy, Debug)]
pub struct Address {
    pub bytes: [u8; 32],
}

impl View for Address {
    type V = Seq<u8>;

    open spec fn view(&self) -> Seq<u8> {
        self.bytes@
    }
}

impl PartialEq for Address {
    fn eq(&self, other: &Address) -> (r: bool) {
        let mut i: usize = 0;
        while i < 32
            invariant
                i <= 32,
                forall|j: int| 0 <= j < i ==> self.bytes@[j] == other.bytes@[j],
            decreases 32 - i,
        {
            if self.bytes[i] != other.bytes[i] {
                return false;
            }
            i += 1;
        }
        assert(self.bytes@ =~= other.bytes@);
        assert(self.bytes == other.bytes);
        true
    }
}

impl Eq for Address {

}

impl vstd::std_specs::cmp::PartialEqSpecImpl for Address {
    open spec fn obeys_eq_spec() -> bool {
        true
    }

    open spec fn eq_spec(&self, other: &Address) -> bool {
        *self == *other
    }
}

/// The byte strings that a list of seeds holds, in order.
pub open spec fn seed_bytes(seeds: &Vec<Vec<u8>>) -> Seq<Seq<u8>> {
    Seq::new(seeds@.len(), |i: int| seeds@[i]@)
}

/// Whether a list of seeds is within the limits of a derivation.
pub open spec fn seeds_in_bounds(seeds: Seq<Seq<u8>>) -> bool {
    &&& seeds.len() <= MAX_SEEDS
    &&& forall|i: int| 0 <= i < seeds.len() ==> (#[trigger] seeds[i]).len() <= MAX_SEED_LEN
}

/// What hashing the seeds with the program's identity gives: the 32 bytes of
/// the address, or `None` where the hash is a point of the curve and so could
/// have a private key.
pub uninterp spec fn hashed_address(seeds: Seq<Seq<u8>>, program: Seq<u8>) -> Option<Seq<u8>>;

/// The address derived from `seeds` under `program`, if there is one.
pub open spec fn program_address(seeds: Seq<Seq<u8>>, program: Seq<u8>) -> Option<Seq<u8>> {
    if seeds_in_bounds(seeds) {
        hashed_address(seeds, program)
    } else {
        None
    }
}

/// The text form of an identity: its 32 bytes in base 58.
pub uninterp spec fn base58_text(bytes: Seq<u8>) -> Seq<char>;

/// Calls `Pubkey::create_program_address` on the seeds and the program's
/// identity. That function refuses more than sixteen seeds and any seed of
/// more than 32 bytes; otherwise it hashes the seeds, the program's identity
/// and a fixed marker, and refuses the hash where it is a curve point. The
/// contract states the two limits and names the rest `hashed_address`.
#[verifier::external_body]
pub(crate) fn create_program_address(seeds: &Vec<Vec<u8>>, program: &Address) -> (r: Option<Address>)
    ensures
        match r {
            Some(address) => seeds_in_bounds(seed_bytes(seeds)) && hashed_address(
                seed_bytes(seeds),
                program@,
            ) == Some(address@),
            None => !seeds_in_bounds(seed_bytes(seeds)) || hashed_address(
                seed_bytes(seeds),
                program@,
            ).is_none(),
        },
{
    let slices: Vec<&[u8]> = seeds.iter().map(|s| s.as_slice()).collect();
    match Pubkey::create_program_address(&slices, &Pubkey::new_from_array(program.bytes)) {
        Ok(key) => Some(Address { bytes: key.to_bytes() }),
        Err(_) => None,
    }
}

/// Calls `Pubkey::to_string`, which writes the 32 bytes in base 58. The
/// contract names the text `base58_text`.
#[verifier::external_body]
pub(crate) fn to_base58(address: &Address) -> (r: String)
    ensures
        r@ == base58_text(address@),
{
    Pubkey::new_from_array(address.bytes).to_string()
}

/// Two identities with the same bytes are the same identity.
pub proof fn lemma_same_bytes(a: Address, b: Address)
    ensures
        (a@ == b@) == (a == b),
{
    if a@ == b@ {
        assert(a.bytes@ =~= b.bytes@);
        assert(a.bytes == b.bytes);
    }
}

/// The bytes of an optional identity.
pub open spec fn option_bytes(a: Option<Address>) -> Option<Seq<u8>> {
    match a {
        Some(address) => Some(address@),
        None => None,
    }
}

/// The role tag of the payment-asset custody account: the bytes of
/// `pool_usdc`.
pub open spec fn payment_pool_tag() -> Seq<u8> {
    seq![0x70u8, 0x6fu8, 0x6fu8, 0x6cu8, 0x5fu8, 0x75u8, 0x73u8, 0x64u8, 0x63u8]
}

/// The role tag of the sale-asset custody account: the bytes of `pool_wen`.
pub open spec fn sale_pool_tag() -> Seq<u8> {
    seq![0x70u8, 0x6fu8, 0x6fu8, 0x6cu8, 0x5fu8, 0x77u8, 0x65u8, 0x6eu8]
}

/// The seeds of a pool record: the trimmed title and the nonce.
pub open spec fn pool_record_seeds(title: Seq<u8>, bump: u8) -> Seq<Seq<u8>> {
    seq![trimmed(title), seq![bump]]
}

/// The seeds of a custody account: the trimmed title, the role tag and the
/// nonce.
pub open spec fn custody_seeds(title: Seq<u8>, tag: Seq<u8>, bump: u8) -> Seq<Seq<u8>> {
    seq![trimmed(title), tag, seq![bump]]
}

/// The seeds of a participant's entry: the trimmed title, the two fragments
/// of the participant's identity in text form, and the nonce.
pub open spec fn participant_seeds(
    title: Seq<u8>,
    fragment_a: Seq<u8>,
    fragment_b: Seq<u8>,
    bump: u8,
) -> Seq<Seq<u8>> {
    seq![trimmed(title), fragment_a, fragment_b, seq![bump]]
}

/// Whether `key` is the address derived from `seeds` under `program`.
pub open spec fn derives_to(seeds: Seq<Seq<u8>>, program: Address, key: Address) -> bool {
    program_address(seeds, program@) == Some(key@)
}

/// The address derived from `seeds` under `program`, if there is one.
pub fn derive_address(seeds: &Vec<Vec<u8>>, program: &Address) -> (r: Option<Address>)
    ensures
        option_bytes(r) == program_address(seed_bytes(seeds), program@),
{
    create_program_address(seeds, program)
}

/// Whether `key` is the address derived from `seeds` under `program`.
pub fn derives(seeds: &Vec<Vec<u8>>, program: &Address, key: &Address) -> (r: bool)
    ensures
        r == derives_to(seed_bytes(seeds), *program, *key),
{
    match create_program_address(seeds, program) {
        Some(address) => {
            proof {
                lemma_same_bytes(address, *key);
            }
            address == *key
        },
        None => false,
    }
}

/// `seeds` with the one-byte seed `bump` in place of the last seed.
pub open spec fn with_nonce(seeds: Seq<Seq<u8>>, bump: u8) -> Seq<Seq<u8>> {
    seeds.drop_last().push(seq![bump])
}

/// Whether `bump` is the nonce that a search settles on for `seeds`: the
/// greatest one from 255 down to 1 that gives an address.
pub open spec fn is_canonical_nonce(seeds: Seq<Seq<u8>>, program: Seq<u8>, bump: u8) -> bool {
    &&& bump >= 1
    &&& program_address(with_nonce(seeds, bump), program).is_some()
    &&& forall|b: u8| bump < b ==> program_address(#[trigger] with_nonce(seeds, b), program).is_none()
}

/// Searches the nonce of a derivation: tries 255, 254 and so on down to 1 in
/// the last place of `seeds`, and returns the first that gives an address,
/// with the address. `None` where none of them does.
pub fn find_address(seeds: Vec<Vec<u8>>, program: &Address) -> (r: Option<(Address, u8)>)
    requires
        seeds@.len() >= 1,
    ensures
        match r {
            Some((address, bump)) => {
                &&& is_canonical_nonce(seed_bytes(&seeds), program@, bump)
                &&& program_address(with_nonce(seed_bytes(&seeds), bump), program@) == Some(
                    address@,
                )
            },
            None => forall|b: u8|
                b >= 1 ==> program_address(
                    #[trigger] with_nonce(seed_bytes(&seeds), b),
                    program@,
                ).is_none(),
        },
{
    let ghost given = seed_bytes(&seeds);
    let last: usize = seeds.len() - 1;
    let mut trial = seeds;
    let mut bump: u8 = 255;
    while bump >= 1
        invariant
            trial@.len() == last + 1,
            given == seed_bytes(&seeds),
            given.len() == last + 1,
            seed_bytes(&trial).drop_last() == given.drop_last(),
            forall|b: u8| bump < b ==> program_address(#[trigger] with_nonce(given, b), program@).is_none(),
        decreases bump,
    {
        let ghost before = seed_bytes(&trial);
        let nonce: Vec<u8> = vec![bump];
        assert(nonce@ =~= seq![bump]);
        trial.set(last, nonce);
        assert(seed_bytes(&trial).drop_last() =~= before.drop_last());
        assert(seed_bytes(&trial) =~= with_nonce(given, bump));
        match create_program_address(&trial, program) {
            Some(address) => {
                return Some((address, bump));
            },
            None => {},
        }
        bump -= 1;
    }
    assert forall|b: u8| b >= 1 implies program_address(
        #[trigger] with_nonce(given, b),
        program@,
    ).is_none() by {
        assert(bump < b);
    }
    None
}

/// The role tag of the payment-asset custody account.
pub fn payment_tag() -> (r: Vec<u8>)
    ensures
        r@ == payment_pool_tag(),
{
    let r: Vec<u8> = vec![0x70u8, 0x6fu8, 0x6fu8, 0x6cu8, 0x5fu8, 0x75u8, 0x73u8, 0x64u8, 0x63u8];
    assert(r@ =~= payment_pool_tag());
    r
}

/// The role tag of the sale-asset custody account.
pub fn sale_tag() -> (r: Vec<u8>)
    ensures
        r@ == sale_pool_tag(),
{
    let r: Vec<u8> = vec![0x70u8, 0x6fu8, 0x6fu8, 0x6cu8, 0x5fu8, 0x77u8, 0x65u8, 0x6eu8];
    assert(r@ =~= sale_pool_tag());
    r
}

/// The seeds that derive a pool record's address from its title, stored or
/// not, and its nonce. They are also the seeds by which the program signs in
/// the pool record's name.
pub fn pool_seeds(title: &[u8], bump: u8) -> (r: Vec<Vec<u8>>)
    ensures
        seed_bytes(&r) == pool_record_seeds(title@, bump),
{
    let mut seeds: Vec<Vec<u8>> = Vec::new();
    seeds.push(slice_to_vec(trim_bytes(title)));
    let nonce: Vec<u8> = vec![bump];
    assert(nonce@ =~= seq![bump]);
    seeds.push(nonce);
    assert(seed_bytes(&seeds) =~= pool_record_seeds(title@, bump));
    seeds
}

/// The seeds that derive a custody account's address from the pool's title,
/// the account's role tag and its nonce.
pub fn tagged_seeds(title: &[u8], tag: Vec<u8>, bump: u8) -> (r: Vec<Vec<u8>>)
    ensures
        seed_bytes(&r) == custody_seeds(title@, tag@, bump),
{
    let mut seeds: Vec<Vec<u8>> = Vec::new();
    seeds.push(slice_to_vec(trim_bytes(title)));
    seeds.push(tag);
    let nonce: Vec<u8> = vec![bump];
    assert(nonce@ =~= seq![bump]);
    seeds.push(nonce);
    assert(seed_bytes(&seeds) =~= custody_seeds(title@, tag@, bump));
    seeds
}

/// The seeds that derive the address of a participant's entry from the
/// pool's title, the two fragments of the participant's identity in text
/// form, and the entry's nonce.
pub fn entry_seeds(title: &[u8], fragment_a: &str, fragment_b: &str, bump: u8) -> (r: Vec<Vec<u8>>)
    ensures
        seed_bytes(&r) == participant_seeds(
            title@,
            fragment_a.spec_bytes(),
            fragment_b.spec_bytes(),
            bump,
        ),
{
    let mut seeds: Vec<Vec<u8>> = Vec::new();
    seeds.push(slice_to_vec(trim_bytes(title)));
    seeds.push(slice_to_vec(fragment_a.as_bytes()));
    seeds.push(slice_to_vec(fragment_b.as_bytes()));
    let nonce: Vec<u8> = vec![bump];
    assert(nonce@ =~= seq![bump]);
    seeds.push(nonce);
    assert(seed_bytes(&seeds) =~= participant_seeds(
        title@,
        fragment_a.spec_bytes(),
        fragment_b.spec_bytes(),
        bump,
    ));
    seeds
}

/// The address of the pool record with this title and nonce, if the nonce
/// gives one.
pub fn pool_record_address(program: &Address, title: &[u8], bump: u8) -> (r: Option<Address>)
    ensures
        option_bytes(r) == program_address(pool_record_seeds(title@, bump), program@),
{
    let seeds = pool_seeds(title, bump);
    create_program_address(&seeds, program)
}

/// The address of the payment-asset custody account of the pool with this
/// title, if the nonce gives one.
pub fn payment_pool_address(program: &Address, title: &[u8], bump: u8) -> (r: Option<Address>)
    ensures
        option_bytes(r) == program_address(
            custody_seeds(title@, payment_pool_tag(), bump),
            program@,
        ),
{
    let seeds = tagged_seeds(title, payment_tag(), bump);
    create_program_address(&seeds, program)
}

/// The address of the sale-asset custody account of the pool with this
/// title, if the nonce gives one.
pub fn sale_pool_address(program: &Address, title: &[u8], bump: u8) -> (r: Option<Address>)
    ensures
        option_bytes(r) == program_address(custody_seeds(title@, sale_pool_tag(), bump), program@),
{
    let seeds = tagged_seeds(title, sale_tag(), bump);
    create_program_address(&seeds, program)
}

/// The address of the entry of the participant whose identity, in text
/// form, is the two fragments put together, if the nonce gives one.
pub fn participant_address(
    program: &Address,
    title: &[u8],
    fragment_a: &str,
    fragment_b: &str,
    bump: u8,
) -> (r: Option<Address>)
    ensures
        option_bytes(r) == program_address(
            participant_seeds(title@, fragment_a.spec_bytes(), fragment_b.spec_bytes(), bump),
            program@,
        ),
{
    let seeds = entry_seeds(title, fragment_a, fragment_b, bump);
    create_program_address(&seeds, program)
}

/// The text form of an identity.
pub fn address_text(address: &Address) -> (r: String)
    ensures
        r@ == base58_text(address@),
{
    to_base58(address)
}

} // verus!
