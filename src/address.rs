//! Identities and program-derived addresses.

use vstd::prelude::*;
use vstd::string::StringSliceAdditionalSpecFns;

verus! {

/// The 32-byte identity of an account or a program.
#[derive(Clone, Copy, Debug, PartialEq, Eq, Hash)]
pub struct Address {
    pub bytes: [u8; 32],
}

impl Address {
    pub fn new_from_array(bytes: [u8; 32]) -> (r: Address)
        ensures
            r.bytes@ == bytes@,
    {
        Address { bytes }
    }

    pub fn to_bytes(&self) -> (r: [u8; 32])
        ensures
            r@ == self.bytes@,
    {
        self.bytes
    }

    /// Byte-wise equality of two identities.
    pub fn same_as(&self, other: &Address) -> (r: bool)
        ensures
            r == (self.bytes@ == other.bytes@),
    {
        let mut i: usize = 0;
        while i < 32
            invariant
                i <= 32,
                self.bytes@.len() == 32,
                other.bytes@.len() == 32,
                forall|j: int| 0 <= j < i ==> self.bytes@[j] == other.bytes@[j],
            decreases 32 - i,
        {
            if self.bytes[i] != other.bytes[i] {
                return false;
            }
            i = i + 1;
        }
        assert(self.bytes@ =~= other.bytes@);
        true
    }
}

/// The address that the seeds derive under a program, with no bump search;
/// `None` where the derivation is refused.
pub uninterp spec fn program_address_of(seeds: Seq<Seq<u8>>, program_id: Seq<u8>) -> Option<Seq<u8>>;

/// The address and bump that the bump search finds for the seeds under a
/// program; `None` where no bump gives a valid address.
pub uninterp spec fn found_program_address_of(seeds: Seq<Seq<u8>>, program_id: Seq<u8>) -> Option<(Seq<u8>, u8)>;

pub open spec fn seeds_view(seeds: Seq<Vec<u8>>) -> Seq<Seq<u8>> {
    seeds.map_values(|s: Vec<u8>| s@)
}

/// Relies on `Pubkey::create_program_address` (solana_program, re-exported by
/// anchor_lang): the derived address, or an error, is a function of the seeds
/// and the program id alone.
#[verifier::external_body]
fn create_program_address(seeds: &Vec<Vec<u8>>, program_id: &Address) -> (r: Option<Address>)
    ensures
        r is None <==> program_address_of(seeds_view(seeds@), program_id.bytes@) is None,
        r is Some ==> program_address_of(seeds_view(seeds@), program_id.bytes@) == Some(
            r->0.bytes@,
        ),
{
    let parts: Vec<&[u8]> = seeds.iter().map(|s| s.as_slice()).collect();
    let pid = anchor_lang::solana_program::pubkey::Pubkey::new_from_array(program_id.bytes);
    match anchor_lang::solana_program::pubkey::Pubkey::create_program_address(&parts, &pid) {
        Ok(k) => Some(Address { bytes: k.to_bytes() }),
        Err(_) => None,
    }
}

/// Relies on `Pubkey::try_find_program_address` (solana_program, re-exported by
/// anchor_lang): the result is a function of the seeds and the program id, and
/// a found `(address, bump)` is what `create_program_address` gives for the
/// seeds followed by the one-byte seed `[bump]`.
#[verifier::external_body]
fn try_find_program_address(seeds: &Vec<Vec<u8>>, program_id: &Address) -> (r: Option<(Address, u8)>)
    ensures
        r is None <==> found_program_address_of(seeds_view(seeds@), program_id.bytes@) is None,
        r matches Some((k, b)) ==> found_program_address_of(seeds_view(seeds@), program_id.bytes@)
            == Some((k.bytes@, b)),
        r matches Some((k, b)) ==> program_address_of(
            seeds_view(seeds@).push(seq![b]),
            program_id.bytes@,
        ) == Some(k.bytes@),
{
    let parts: Vec<&[u8]> = seeds.iter().map(|s| s.as_slice()).collect();
    let pid = anchor_lang::solana_program::pubkey::Pubkey::new_from_array(program_id.bytes);
    anchor_lang::solana_program::pubkey::Pubkey::try_find_program_address(&parts, &pid).map(
        |(k, b)| (Address { bytes: k.to_bytes() }, b),
    )
}

/// The seed tag of an escrow record: the bytes of `"escrow"`.
pub open spec fn escrow_tag() -> Seq<u8> {
    seq![101u8, 115u8, 99u8, 114u8, 111u8, 119u8]
}

/// The seed tag of a configuration record: the bytes of `"config"`.
pub open spec fn config_tag() -> Seq<u8> {
    seq![99u8, 111u8, 110u8, 102u8, 105u8, 103u8]
}

/// The seeds of the escrow record of `(client, freelancer, escrow_id)`.
pub open spec fn escrow_seeds(client: Seq<u8>, freelancer: Seq<u8>, escrow_id: Seq<u8>) -> Seq<Seq<u8>> {
    seq![escrow_tag(), client, freelancer, escrow_id]
}

/// The seeds of the configuration record of an authority.
pub open spec fn config_seeds(authority: Seq<u8>) -> Seq<Seq<u8>> {
    seq![config_tag(), authority]
}

fn bytes_of(b: &[u8]) -> (r: Vec<u8>)
    ensures
        r@ == b@,
{
    let mut r: Vec<u8> = Vec::new();
    let mut i: usize = 0;
    while i < b.len()
        invariant
            i <= b@.len(),
            r@ == b@.subrange(0, i as int),
        decreases b@.len() - i,
    {
        r.push(b[i]);
        i = i + 1;
    }
    assert(r@ =~= b@);
    r
}

fn escrow_seed_vec(client: &Address, freelancer: &Address, escrow_id: &str) -> (r: Vec<Vec<u8>>)
    ensures
        seeds_view(r@) == escrow_seeds(client.bytes@, freelancer.bytes@, escrow_id.spec_bytes()),
{
    let tag: Vec<u8> = vec![101u8, 115u8, 99u8, 114u8, 111u8, 119u8];
    let r: Vec<Vec<u8>> = vec![tag, bytes_of(client.bytes.as_slice()), bytes_of(freelancer.bytes.as_slice()), bytes_of(escrow_id.as_bytes())];
    assert(seeds_view(r@) =~= escrow_seeds(client.bytes@, freelancer.bytes@, escrow_id.spec_bytes()));
    r
}

fn config_seed_vec(authority: &Address) -> (r: Vec<Vec<u8>>)
    ensures
        seeds_view(r@) == config_seeds(authority.bytes@),
{
    let tag: Vec<u8> = vec![99u8, 111u8, 110u8, 102u8, 105u8, 103u8];
    let r: Vec<Vec<u8>> = vec![tag, bytes_of(authority.bytes.as_slice())];
    assert(seeds_view(r@) =~= config_seeds(authority.bytes@));
    r
}

/// Whether `key` is the escrow record of `(client, freelancer, escrow_id)`
/// under `program_id` with the stored `bump`.
pub open spec fn is_escrow_address(
    key: Address,
    program_id: Address,
    client: Address,
    freelancer: Address,
    escrow_id: Seq<u8>,
    bump: u8,
) -> bool {
    program_address_of(
        escrow_seeds(client.bytes@, freelancer.bytes@, escrow_id).push(seq![bump]),
        program_id.bytes@,
    ) == Some(key.bytes@)
}

pub fn check_escrow_address(
    key: &Address,
    program_id: &Address,
    client: &Address,
    freelancer: &Address,
    escrow_id: &str,
    bump: u8,
) -> (r: bool)
    ensures
        r == is_escrow_address(*key, *program_id, *client, *freelancer, escrow_id.spec_bytes(), bump),
{
    let mut seeds = escrow_seed_vec(client, freelancer, escrow_id);
    let ghost prefix = seeds@;
    let last: Vec<u8> = vec![bump];
    assert(last@ =~= seq![bump]);
    seeds.push(last);
    proof {
        assert(seeds@ == prefix.push(last));
        assert(seeds_view(prefix).len() == 4);
        assert(seeds@.len() == 5);
        assert(seeds@[4]@ == seq![bump]);
        assert(seeds_view(seeds@)[4] == seq![bump]);
        assert(seeds_view(seeds@) =~= escrow_seeds(client.bytes@, freelancer.bytes@, escrow_id.spec_bytes()).push(seq![bump]));
    }
    match create_program_address(&seeds, program_id) {
        Some(k) => k.same_as(key),
        None => false,
    }
}

/// The escrow address and bump found for `(client, freelancer, escrow_id)`.
pub fn find_escrow_address(program_id: &Address, client: &Address, freelancer: &Address, escrow_id: &str) -> (r: Option<(Address, u8)>)
    ensures
        r is None <==> found_program_address_of(
            escrow_seeds(client.bytes@, freelancer.bytes@, escrow_id.spec_bytes()),
            program_id.bytes@,
        ) is None,
        r matches Some((k, b)) ==> found_program_address_of(
            escrow_seeds(client.bytes@, freelancer.bytes@, escrow_id.spec_bytes()),
            program_id.bytes@,
        ) == Some((k.bytes@, b)),
        r matches Some((k, b)) ==> is_escrow_address(
            k,
            *program_id,
            *client,
            *freelancer,
            escrow_id.spec_bytes(),
            b,
        ),
{
    let seeds = escrow_seed_vec(client, freelancer, escrow_id);
    try_find_program_address(&seeds, program_id)
}

/// The configuration address and bump found for an authority.
pub fn find_config_address(program_id: &Address, authority: &Address) -> (r: Option<(Address, u8)>)
    ensures
        r is None <==> found_program_address_of(config_seeds(authority.bytes@), program_id.bytes@) is None,
        r matches Some((k, b)) ==> found_program_address_of(config_seeds(authority.bytes@), program_id.bytes@)
            == Some((k.bytes@, b)),
{
    let seeds = config_seed_vec(authority);
    try_find_program_address(&seeds, program_id)
}

} // verus!
