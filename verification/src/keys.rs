//! Account addresses as plain 32-byte values.
use vstd::prelude::*;
use vstd::utf8::encode_utf8;

verus! {

/// A 32-byte account address (an ed25519 public key or a program-derived address).
#[derive(Clone, Copy, Debug)]
pub struct Pubkey(pub [u8; 32]);

impl View for Pubkey {
    type V = Seq<u8>;

    open spec fn view(&self) -> Seq<u8> {
        self.0@
    }
}

impl Pubkey {
    /// The address made of the given bytes.
    pub fn new_from_array(bytes: [u8; 32]) -> (k: Pubkey)
        ensures
            k.0 == bytes,
    {
        Pubkey(bytes)
    }

    /// The address's 32 bytes.
    pub fn to_bytes(&self) -> (b: [u8; 32])
        ensures
            b == self.0,
    {
        self.0
    }

    /// Whether two addresses are the same address.
    pub fn key_eq(&self, other: &Pubkey) -> (r: bool)
        ensures
            r == (*self == *other),
    {
        broadcast use vstd::array::group_array_axioms;

        let mut i: usize = 0;
        while i < 32
            invariant
                0 <= i <= 32,
                forall|j: int| 0 <= j < i ==> self.0[j] == other.0[j],
            decreases 32 - i,
        {
            if self.0[i] != other.0[i] {
                return false;
            }
            i = i + 1;
        }
        assert(self.0 =~= other.0);
        true
    }
}

/// The base58 text of the 32 address bytes `key`, as an address's `Display` writes it.
pub uninterp spec fn base58_text(key: Seq<u8>) -> Seq<char>;

/// Renders the address through `Display` of `anchor_lang::prelude::Pubkey`
/// (solana-program's `Pubkey`, which base58-encodes its bytes with `bs58`).
/// The contract claims that the text depends on the 32 bytes alone, and that
/// it takes at most 56 UTF-8 bytes: `bs58` encodes into a buffer of
/// `(32 / 5 + 1) * 8` bytes and fails rather than exceed it. The encoding
/// itself is not stated.
#[verifier::external_body]
pub(crate) fn base58(key: &Pubkey) -> (s: String)
    ensures
        s@ == base58_text(key@),
        encode_utf8(s@).len() <= 56,
{
    anchor_lang::prelude::Pubkey::new_from_array(key.0).to_string()
}

/// The program-derived address and bump seed that the address search finds
/// for `seeds` under `program_id`, or `None` when it finds none.
pub uninterp spec fn program_address_search(seeds: Seq<Seq<u8>>, program_id: Seq<u8>) -> Option<(Seq<u8>, u8)>;

/// The bytes of each seed.
pub open spec fn seed_bytes(seeds: Seq<Vec<u8>>) -> Seq<Seq<u8>> {
    seeds.map_values(|s: Vec<u8>| s@)
}

/// Calls `Pubkey::try_find_program_address` of solana-program (through
/// `anchor_lang::prelude::Pubkey`). The contract claims that the result is a
/// function of the seeds and the program id alone, and, as its source shows,
/// that it is `None` when there are 16 or more seeds (no room for the bump
/// seed) or a seed longer than 32 bytes. Which address and bump it finds is
/// not stated.
#[verifier::external_body]
fn try_find_program_address(seeds: &Vec<Vec<u8>>, program_id: &Pubkey) -> (r: Option<(Pubkey, u8)>)
    ensures
        match r {
            Some((k, bump)) => program_address_search(seed_bytes(seeds@), program_id@) == Some((k@, bump)),
            None => program_address_search(seed_bytes(seeds@), program_id@) is None,
        },
        seeds@.len() >= 16 || (exists|i: int| 0 <= i < seeds@.len() && #[trigger] seeds@[i]@.len() > 32) ==> r is None,
{
    let slices: Vec<&[u8]> = seeds.iter().map(|s| s.as_slice()).collect();
    let program = anchor_lang::prelude::Pubkey::new_from_array(program_id.0);
    anchor_lang::prelude::Pubkey::try_find_program_address(&slices, &program).map(|(k, bump)| (Pubkey(k.to_bytes()), bump))
}

/// The seed of the vault configuration's address: the bytes of "vault_config".
pub open spec fn vault_config_seed() -> Seq<u8> {
    seq![118u8, 97, 117, 108, 116, 95, 99, 111, 110, 102, 105, 103]
}

/// The address of the vault configuration of the program `program_id`, with
/// its bump seed: the program-derived address of the single seed "vault_config".
pub fn vault_config_address(program_id: &Pubkey) -> (r: Option<(Pubkey, u8)>)
    ensures
        match r {
            Some((k, bump)) => program_address_search(seq![vault_config_seed()], program_id@) == Some((k@, bump)),
            None => program_address_search(seq![vault_config_seed()], program_id@) is None,
        },
{
    let seed: Vec<u8> = vec![118u8, 97, 117, 108, 116, 95, 99, 111, 110, 102, 105, 103];
    let mut seeds: Vec<Vec<u8>> = Vec::new();
    seeds.push(seed);
    assert(seed_bytes(seeds@) =~= seq![vault_config_seed()]);
    try_find_program_address(&seeds, program_id)
}

} // verus!
