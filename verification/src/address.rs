use anchor_lang::prelude::Pubkey;
use vstd::prelude::*;

verus! {

/// A 32-byte account address (a Solana public key), held as plain bytes.
#[derive(Clone, Copy, Debug, PartialEq, Eq, Hash)]
pub struct Address {
    pub bytes: [u8; 32],
}

impl View for Address {
    type V = Seq<u8>;

    open spec fn view(&self) -> Seq<u8> {
        self.bytes@
    }
}

impl Address {
    /// Builds an address from its 32 bytes.
    pub fn new(bytes: [u8; 32]) -> (a: Address)
        ensures
            a@ == bytes@,
    {
        Address { bytes }
    }

    /// Whether two addresses are the same key.
    pub fn same(&self, other: &Address) -> (r: bool)
        ensures
            r == (self@ == other@),
    {
        let mut i: usize = 0;
        while i < 32
            invariant
                i <= 32,
                self@.len() == 32,
                other@.len() == 32,
                forall|j: int| 0 <= j < i ==> self@[j] == other@[j],
            decreases 32 - i,
        {
            if self.bytes[i] != other.bytes[i] {
                return false;
            }
            i = i + 1;
        }
        assert(self@ =~= other@);
        true
    }

    /// The address as a byte vector, for use as a derivation seed.
    pub fn to_seed(&self) -> (v: Vec<u8>)
        ensures
            v@ == self@,
    {
        let mut v: Vec<u8> = Vec::new();
        let mut i: usize = 0;
        while i < 32
            invariant
                i <= 32,
                self@.len() == 32,
                v@ == self@.take(i as int),
            decreases 32 - i,
        {
            v.push(self.bytes[i]);
            i = i + 1;
            assert(v@ =~= self@.take(i as int));
        }
        assert(self@.take(32) =~= self@);
        v
    }
}


/// The bytes of an address that may be missing.
pub open spec fn address_option_view(a: Option<Address>) -> Option<Seq<u8>> {
    match a {
        Some(a) => Some(a@),
        None => None,
    }
}

/// The byte contents of a list of addresses.
pub open spec fn addresses_view(keys: Seq<Address>) -> Seq<Seq<u8>> {
    keys.map_values(|a: Address| a@)
}

/// Whether no key occurs twice in `keys`.
pub open spec fn pairwise_distinct(keys: Seq<Seq<u8>>) -> bool {
    forall|i: int, j: int| 0 <= i < j < keys.len() ==> keys[i] != keys[j]
}

/// Whether no address occurs twice in `keys`.
pub fn all_distinct(keys: &Vec<Address>) -> (r: bool)
    ensures
        r == pairwise_distinct(addresses_view(keys@)),
{
    let ghost view = addresses_view(keys@);
    let mut j: usize = 0;
    while j < keys.len()
        invariant
            j <= keys.len(),
            view == addresses_view(keys@),
            view.len() == keys@.len(),
            forall|a: int, b: int| 0 <= a < b < j ==> view[a] != view[b],
        decreases keys.len() - j,
    {
        let mut i: usize = 0;
        while i < j
            invariant
                i <= j,
                j < keys.len(),
                view == addresses_view(keys@),
                view.len() == keys@.len(),
                forall|a: int| 0 <= a < i ==> view[a] != view[j as int],
            decreases j - i,
        {
            if keys[i].same(&keys[j]) {
                assert(view[i as int] == view[j as int]);
                return false;
            }
            i = i + 1;
        }
        j = j + 1;
    }
    true
}

/// The byte contents of a list of seeds.
pub open spec fn seeds_view(seeds: Seq<Vec<u8>>) -> Seq<Seq<u8>> {
    seeds.map_values(|s: Vec<u8>| s@)
}

/// The seeds that the vault's configuration account is derived from:
/// the configuration prefix, the share mint's address and the bump byte.
pub open spec fn vault_seeds(config_seed: Seq<u8>, share_mint: Seq<u8>, bump: u8) -> Seq<Seq<u8>> {
    seq![config_seed, share_mint, seq![bump]]
}

/// The address that `Pubkey::create_program_address` derives from `seeds` and
/// `program_id`, or `None` where it refuses them.
pub uninterp spec fn program_derived_address(seeds: Seq<Seq<u8>>, program_id: Seq<u8>) -> Option<Seq<u8>>;

/// Calls `Pubkey::create_program_address` (the solana-address crate, re-exported by
/// anchor-lang). Trusted: the result, found or refused, is the one named by
/// `program_derived_address` for the same seeds and program; as the source shows,
/// more than 16 seeds, or a seed longer than 32 bytes, is refused. The hash and the
/// curve test that decide the rest are not stated.
#[verifier::external_body]
fn create_program_address(seeds: &Vec<Vec<u8>>, program_id: &Address) -> (r: Option<Address>)
    ensures
        (r is Some) == (program_derived_address(seeds_view(seeds@), program_id@) is Some),
        r matches Some(a) ==> a@ == program_derived_address(seeds_view(seeds@), program_id@)->0,
        seeds@.len() > 16 ==> r is None,
        (exists|i: int| 0 <= i < seeds@.len() && seeds@[i]@.len() > 32) ==> r is None,
{
    let mut slices: Vec<&[u8]> = Vec::new();
    for s in seeds.iter() {
        slices.push(s.as_slice());
    }
    match Pubkey::create_program_address(&slices, &Pubkey::new_from_array(program_id.bytes)) {
        Ok(key) => Some(Address { bytes: key.to_bytes() }),
        Err(_) => None,
    }
}

/// A copy of a byte vector.
fn copy_bytes(v: &Vec<u8>) -> (c: Vec<u8>)
    ensures
        c@ == v@,
{
    let mut c: Vec<u8> = Vec::new();
    let mut i: usize = 0;
    while i < v.len()
        invariant
            i <= v.len(),
            c@ == v@.take(i as int),
        decreases v.len() - i,
    {
        c.push(v[i]);
        i = i + 1;
        assert(c@ =~= v@.take(i as int));
    }
    assert(v@.take(v@.len() as int) =~= v@);
    c
}

/// The seeds with which the vault's configuration account signs: the
/// configuration prefix, the share mint's address and the bump byte.
pub fn vault_signer_seeds(config_seed: &Vec<u8>, share_mint: &Address, bump: u8) -> (seeds: Vec<Vec<u8>>)
    ensures
        seeds_view(seeds@) == vault_seeds(config_seed@, share_mint@, bump),
{
    let mut seeds: Vec<Vec<u8>> = Vec::new();
    seeds.push(copy_bytes(config_seed));
    seeds.push(share_mint.to_seed());
    let mut bump_seed: Vec<u8> = Vec::new();
    bump_seed.push(bump);
    seeds.push(bump_seed);
    assert(seeds_view(seeds@) =~= vault_seeds(config_seed@, share_mint@, bump));
    seeds
}

/// The address of the vault's configuration account for a share mint, derived
/// under `program_id` from the vault seeds; `None` where the derivation refuses them.
pub fn vault_address(config_seed: &Vec<u8>, share_mint: &Address, bump: u8, program_id: &Address) -> (r: Option<Address>)
    ensures
        address_option_view(r) == program_derived_address(vault_seeds(config_seed@, share_mint@, bump), program_id@),
        config_seed@.len() > 32 ==> r is None,
{
    let seeds = vault_signer_seeds(config_seed, share_mint, bump);
    proof {
        if config_seed@.len() > 32 {
            assert(seeds_view(seeds@).len() == 3);
            assert(seeds@.len() == 3);
            assert(seeds_view(seeds@)[0] == config_seed@);
            assert(seeds@[0]@ == seeds_view(seeds@)[0]);
            assert(seeds@[0]@.len() > 32);
        }
    }
    create_program_address(&seeds, program_id)
}

} // verus!
