//! Identities of accounts.

use vstd::prelude::*;

verus! {

/// The identity of an account: thirty-two bytes. Its view is the
/// sequence of the bytes.
#[derive(Clone, Copy, Debug)]
pub struct StoredPubkey {
    bytes: [u8; 32],
}

impl View for StoredPubkey {
    type V = Seq<u8>;

    closed spec fn view(&self) -> Seq<u8> {
        self.bytes@
    }
}

impl StoredPubkey {
    /// The key of these bytes.
    pub fn new(bytes: [u8; 32]) -> (r: StoredPubkey)
        ensures
            r@ == bytes@,
    {
        StoredPubkey { bytes }
    }

    /// The bytes of the key.
    pub fn to_bytes(&self) -> (r: [u8; 32])
        ensures
            r@ == self@,
    {
        self.bytes
    }

    /// The key of thirty-two zero bytes.
    pub fn zeroed() -> (r: StoredPubkey)
        ensures
            r@ == Seq::new(32, |i: int| 0u8),
    {
        let r = StoredPubkey { bytes: [0u8; 32] };
        assert(r.bytes@ =~= Seq::new(32, |i: int| 0u8));
        r
    }

    /// The bytes of the key.
    pub fn to_vec(&self) -> (r: Vec<u8>)
        ensures
            r@ == self@,
    {
        let mut out: Vec<u8> = Vec::new();
        let mut i: usize = 0;
        while i < 32
            invariant
                i <= 32,
                out@ == self.bytes@.take(i as int),
            decreases 32 - i,
        {
            out.push(self.bytes[i]);
            assert(self.bytes@.take(i as int + 1) =~= self.bytes@.take(i as int).push(
                self.bytes@[i as int],
            ));
            i = i + 1;
        }
        assert(self.bytes@.take(32) =~= self.bytes@);
        out
    }

    /// Whether the two keys hold the same bytes.
    pub fn equals(&self, other: &StoredPubkey) -> (r: bool)
        ensures
            r == (self@ == other@),
    {
        let mut i: usize = 0;
        while i < 32
            invariant
                i <= 32,
                forall|j: int| 0 <= j < i ==> self.bytes@[j] == other.bytes@[j],
            decreases 32 - i,
        {
            if self.bytes[i] != other.bytes[i] {
                return false;
            }
            i = i + 1;
        }
        assert(self.bytes@ =~= other.bytes@);
        true
    }
}

/// The address that the host derives for a program from seeds, if the
/// seeds have one: `solana_program`'s `Pubkey::create_program_address`
/// hashes the seeds with the program's identity and gives no address
/// where the hash is a point of the curve or the seeds are too many or
/// too long.
pub uninterp spec fn program_address(seeds: Seq<Seq<u8>>, program_id: Seq<u8>) -> Option<Seq<u8>>;

/// `solana_program::pubkey::Pubkey::create_program_address`. The
/// result depends on the seeds and the program's identity alone.
#[verifier::external_body]
fn raw_create_program_address(seeds: &Vec<Vec<u8>>, program_id: &StoredPubkey) -> (r: Option<
    StoredPubkey,
>)
    ensures
        match r {
            Some(key) => program_address(bytes_of(seeds@), program_id@) == Some(key@),
            None => program_address(bytes_of(seeds@), program_id@) is None,
        },
{
    let parts: Vec<&[u8]> = seeds.iter().map(|s| s.as_slice()).collect();
    let id = solana_program::pubkey::Pubkey::new_from_array(program_id.bytes);
    match solana_program::pubkey::Pubkey::create_program_address(&parts, &id) {
        Ok(key) => Some(StoredPubkey { bytes: key.to_bytes() }),
        Err(_) => None,
    }
}

/// The bytes of each seed.
pub open spec fn bytes_of(seeds: Seq<Vec<u8>>) -> Seq<Seq<u8>> {
    Seq::new(seeds.len(), |i: int| seeds[i]@)
}

/// The seeds followed by a seed of the one byte `bump`.
pub open spec fn with_bump(seeds: Seq<Seq<u8>>, bump: u8) -> Seq<Seq<u8>> {
    seeds.push(seq![bump])
}

/// A copy of the bytes.
fn copy_bytes(bytes: &Vec<u8>) -> (r: Vec<u8>)
    ensures
        r@ == bytes@,
{
    let mut out: Vec<u8> = Vec::new();
    let mut i: usize = 0;
    while i < bytes.len()
        invariant
            i <= bytes@.len(),
            out@ == bytes@.take(i as int),
        decreases bytes@.len() - i,
    {
        out.push(bytes[i]);
        assert(bytes@.take(i as int + 1) =~= bytes@.take(i as int).push(bytes@[i as int]));
        i = i + 1;
    }
    assert(bytes@.take(i as int) =~= bytes@);
    out
}

/// The seeds followed by a seed of the one byte `bump`.
fn seeds_with_bump(seeds: &Vec<Vec<u8>>, bump: u8) -> (r: Vec<Vec<u8>>)
    ensures
        bytes_of(r@) == with_bump(bytes_of(seeds@), bump),
{
    let mut out: Vec<Vec<u8>> = Vec::new();
    let mut i: usize = 0;
    while i < seeds.len()
        invariant
            i <= seeds@.len(),
            out@.len() == i,
            forall|j: int| 0 <= j < i ==> (#[trigger] out@[j])@ == seeds@[j]@,
        decreases seeds@.len() - i,
    {
        out.push(copy_bytes(&seeds[i]));
        i = i + 1;
    }
    let mut last: Vec<u8> = Vec::new();
    last.push(bump);
    out.push(last);
    proof {
        assert(last@ =~= seq![bump]);
        assert(bytes_of(out@) =~= with_bump(bytes_of(seeds@), bump));
    }
    out
}

/// The address derived for the program from the seeds, if they have one.
pub fn create_program_address(seeds: &Vec<Vec<u8>>, program_id: &StoredPubkey) -> (r: Option<
    StoredPubkey,
>)
    ensures
        match r {
            Some(key) => program_address(bytes_of(seeds@), program_id@) == Some(key@),
            None => program_address(bytes_of(seeds@), program_id@) is None,
        },
{
    raw_create_program_address(seeds, program_id)
}

/// Whether `bump` is the largest byte from 255 down to 1 with which the
/// seeds have an address, and `key` is that address.
pub open spec fn is_found(
    seeds: Seq<Seq<u8>>,
    program_id: Seq<u8>,
    bump: u8,
    key: Seq<u8>,
) -> bool {
    &&& bump >= 1
    &&& program_address(with_bump(seeds, bump), program_id) == Some(key)
    &&& forall|b: u8|
        bump < b ==> (#[trigger] program_address(with_bump(seeds, b), program_id)) is None
}

/// Whether the seeds have no address with any byte from 255 down to 1.
pub open spec fn none_found(seeds: Seq<Seq<u8>>, program_id: Seq<u8>) -> bool {
    forall|b: u8| b >= 1 ==> (#[trigger] program_address(with_bump(seeds, b), program_id)) is None
}

/// The address derived for the program from the seeds and a last seed
/// of one byte, the bump, together with that byte: the largest from 255
/// down to 1 with which the seeds have an address.
pub fn find_program_address(seeds: &Vec<Vec<u8>>, program_id: &StoredPubkey) -> (r: Option<
    (StoredPubkey, u8),
>)
    ensures
        match r {
            Some((key, bump)) => is_found(bytes_of(seeds@), program_id@, bump, key@),
            None => none_found(bytes_of(seeds@), program_id@),
        },
{
    let mut bump: u8 = 255;
    while bump >= 1
        invariant
            forall|b: u8|
                bump < b ==> (#[trigger] program_address(
                    with_bump(bytes_of(seeds@), b),
                    program_id@,
                )) is None,
        decreases bump,
    {
        let candidate = seeds_with_bump(seeds, bump);
        match raw_create_program_address(&candidate, program_id) {
            Some(key) => {
                return Some((key, bump));
            },
            None => {},
        }
        bump = bump - 1;
    }
    None
}

} // verus!
