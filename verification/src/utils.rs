//! Small helpers shared by the operations.

use vstd::prelude::*;
use crate::errors::ErrorCode;
use crate::keys::{bytes_of, create_program_address, program_address, StoredPubkey};

verus! {

/// How far a job that may take several calls has come.
#[derive(Clone, Copy, Debug, PartialEq, Eq, Structural)]
pub enum JobCompletion {
    Partial,
    Full,
}

/// Arithmetic that reports what does not fit as `Overflow` in place of
/// wrapping or stopping the program.
pub trait SafeCalc<T> {
    /// The exact result of each operation, where it has one in `T`.
    spec fn add_spec(&self, num: T) -> Option<T>;

    spec fn sub_spec(&self, num: T) -> Option<T>;

    spec fn mul_spec(&self, num: T) -> Option<T>;

    spec fn div_spec(&self, num: T) -> Option<T>;

    fn safe_add(&self, num: T) -> (r: Result<T, ErrorCode>)
        ensures
            r == safe_result(self.add_spec(num)),
    ;

    fn safe_sub(&self, num: T) -> (r: Result<T, ErrorCode>)
        ensures
            r == safe_result(self.sub_spec(num)),
    ;

    fn safe_mul(&self, num: T) -> (r: Result<T, ErrorCode>)
        ensures
            r == safe_result(self.mul_spec(num)),
    ;

    fn safe_div(&self, num: T) -> (r: Result<T, ErrorCode>)
        ensures
            r == safe_result(self.div_spec(num)),
    ;
}

/// The exact result, or `Overflow` where there is none.
pub open spec fn safe_result<T>(exact: Option<T>) -> Result<T, ErrorCode> {
    match exact {
        Some(v) => Ok(v),
        None => Err(ErrorCode::Overflow),
    }
}

impl SafeCalc<u32> for u32 {
    open spec fn add_spec(&self, num: u32) -> Option<u32> {
        if *self + num <= u32::MAX {
            Some((*self + num) as u32)
        } else {
            None
        }
    }

    open spec fn sub_spec(&self, num: u32) -> Option<u32> {
        if *self >= num {
            Some((*self - num) as u32)
        } else {
            None
        }
    }

    open spec fn mul_spec(&self, num: u32) -> Option<u32> {
        if *self * num <= u32::MAX {
            Some((*self * num) as u32)
        } else {
            None
        }
    }

    open spec fn div_spec(&self, num: u32) -> Option<u32> {
        if num != 0 {
            Some(*self / num)
        } else {
            None
        }
    }

    fn safe_add(&self, num: u32) -> (r: Result<u32, ErrorCode>) {
        match self.checked_add(num) {
            Some(v) => Ok(v),
            None => Err(ErrorCode::Overflow),
        }
    }

    fn safe_sub(&self, num: u32) -> (r: Result<u32, ErrorCode>) {
        match self.checked_sub(num) {
            Some(v) => Ok(v),
            None => Err(ErrorCode::Overflow),
        }
    }

    fn safe_mul(&self, num: u32) -> (r: Result<u32, ErrorCode>) {
        match self.checked_mul(num) {
            Some(v) => Ok(v),
            None => Err(ErrorCode::Overflow),
        }
    }

    fn safe_div(&self, num: u32) -> (r: Result<u32, ErrorCode>) {
        if num == 0 {
            Err(ErrorCode::Overflow)
        } else {
            Ok(*self / num)
        }
    }
}

impl SafeCalc<u64> for u64 {
    open spec fn add_spec(&self, num: u64) -> Option<u64> {
        if *self + num <= u64::MAX {
            Some((*self + num) as u64)
        } else {
            None
        }
    }

    open spec fn sub_spec(&self, num: u64) -> Option<u64> {
        if *self >= num {
            Some((*self - num) as u64)
        } else {
            None
        }
    }

    open spec fn mul_spec(&self, num: u64) -> Option<u64> {
        if *self * num <= u64::MAX {
            Some((*self * num) as u64)
        } else {
            None
        }
    }

    open spec fn div_spec(&self, num: u64) -> Option<u64> {
        if num != 0 {
            Some(*self / num)
        } else {
            None
        }
    }

    fn safe_add(&self, num: u64) -> (r: Result<u64, ErrorCode>) {
        match self.checked_add(num) {
            Some(v) => Ok(v),
            None => Err(ErrorCode::Overflow),
        }
    }

    fn safe_sub(&self, num: u64) -> (r: Result<u64, ErrorCode>) {
        match self.checked_sub(num) {
            Some(v) => Ok(v),
            None => Err(ErrorCode::Overflow),
        }
    }

    fn safe_mul(&self, num: u64) -> (r: Result<u64, ErrorCode>) {
        match self.checked_mul(num) {
            Some(v) => Ok(v),
            None => Err(ErrorCode::Overflow),
        }
    }

    fn safe_div(&self, num: u64) -> (r: Result<u64, ErrorCode>) {
        if num == 0 {
            Err(ErrorCode::Overflow)
        } else {
            Ok(*self / num)
        }
    }
}

impl SafeCalc<u128> for u128 {
    open spec fn add_spec(&self, num: u128) -> Option<u128> {
        if *self + num <= u128::MAX {
            Some((*self + num) as u128)
        } else {
            None
        }
    }

    open spec fn sub_spec(&self, num: u128) -> Option<u128> {
        if *self >= num {
            Some((*self - num) as u128)
        } else {
            None
        }
    }

    open spec fn mul_spec(&self, num: u128) -> Option<u128> {
        if *self * num <= u128::MAX {
            Some((*self * num) as u128)
        } else {
            None
        }
    }

    open spec fn div_spec(&self, num: u128) -> Option<u128> {
        if num != 0 {
            Some(*self / num)
        } else {
            None
        }
    }

    fn safe_add(&self, num: u128) -> (r: Result<u128, ErrorCode>) {
        match self.checked_add(num) {
            Some(v) => Ok(v),
            None => Err(ErrorCode::Overflow),
        }
    }

    fn safe_sub(&self, num: u128) -> (r: Result<u128, ErrorCode>) {
        match self.checked_sub(num) {
            Some(v) => Ok(v),
            None => Err(ErrorCode::Overflow),
        }
    }

    fn safe_mul(&self, num: u128) -> (r: Result<u128, ErrorCode>) {
        match self.checked_mul(num) {
            Some(v) => Ok(v),
            None => Err(ErrorCode::Overflow),
        }
    }

    fn safe_div(&self, num: u128) -> (r: Result<u128, ErrorCode>) {
        if num == 0 {
            Err(ErrorCode::Overflow)
        } else {
            Ok(*self / num)
        }
    }
}

/// One who made a collateral item, as its metadata records it.
#[derive(Clone, Copy, Debug)]
pub struct Creator {
    pub address: StoredPubkey,
    /// Whether the creator has signed the item.
    pub verified: bool,
}

/// Whether one of the creators is verified and is the expected one.
pub open spec fn has_verified_creator(creators: Seq<Creator>, expected: Seq<u8>) -> bool {
    exists|i: int|
        0 <= i < creators.len() && (#[trigger] creators[i]).verified && creators[i].address@
            == expected
}

/// Accepts a collateral item's metadata where one of its verified
/// creators is the creator of the market's collection.
pub fn verify_valid_metadata(creators: &Vec<Creator>, nft_collection_creator: &StoredPubkey) -> (r:
    Result<(), ErrorCode>)
    ensures
        has_verified_creator(creators@, nft_collection_creator@) ==> r is Ok,
        !has_verified_creator(creators@, nft_collection_creator@) ==> r == Err::<(), ErrorCode>(
            ErrorCode::VerifiedCreatorMismatch,
        ),
{
    let mut i: usize = 0;
    while i < creators.len()
        invariant
            i <= creators@.len(),
            forall|j: int|
                0 <= j < i ==> !((#[trigger] creators@[j]).verified && creators@[j].address@
                    == nft_collection_creator@),
        decreases creators@.len() - i,
    {
        if creators[i].verified && creators[i].address.equals(nft_collection_creator) {
            return Ok(());
        }
        i = i + 1;
    }
    Err(ErrorCode::VerifiedCreatorMismatch)
}

/// Accepts an account that holds no notes.
pub fn verify_account_empty(notes_remaining: u64) -> (r: Result<(), ErrorCode>)
    ensures
        notes_remaining == 0 ==> r is Ok,
        notes_remaining > 0 ==> r == Err::<(), ErrorCode>(ErrorCode::AccountNotEmpty),
{
    if notes_remaining > 0 {
        return Err(ErrorCode::AccountNotEmpty);
    }
    Ok(())
}

/// The bytes of the word "metadata", the first seed of a metadata
/// account.
pub open spec fn metadata_prefix() -> Seq<u8> {
    seq![109u8, 101u8, 116u8, 97u8, 100u8, 97u8, 116u8, 97u8]
}

/// The seeds from which the metadata account of a collateral item is
/// derived.
pub open spec fn metadata_seeds(program_id: Seq<u8>, mint: Seq<u8>, bump: u8) -> Seq<Seq<u8>> {
    seq![metadata_prefix(), program_id, mint, seq![bump]]
}

/// What checking a metadata account gives: `InvalidMetadata` where the
/// seeds have no address, `KeyMismatch` where the account is not at
/// that address.
pub open spec fn validate_spec(
    metadata_bump: u8,
    metadata: Seq<u8>,
    deposit_nft_mint: Seq<u8>,
    metadata_program_id: Seq<u8>,
) -> Result<(), ErrorCode> {
    derived_match(
        metadata,
        program_address(
            metadata_seeds(metadata_program_id, deposit_nft_mint, metadata_bump),
            metadata_program_id,
        ),
    )
}

/// What a metadata account is held to be, given the address that was
/// derived for it.
pub open spec fn derived_match(metadata: Seq<u8>, derived: Option<Seq<u8>>) -> Result<
    (),
    ErrorCode,
> {
    match derived {
        None => Err(ErrorCode::InvalidMetadata),
        Some(expected) => if expected == metadata {
            Ok(())
        } else {
            Err(ErrorCode::KeyMismatch)
        },
    }
}

/// Accepts a metadata account that is at the address derived for it.
pub fn match_derived(metadata: &StoredPubkey, derived: Option<StoredPubkey>) -> (r: Result<
    (),
    ErrorCode,
>)
    ensures
        r == derived_match(
            metadata@,
            match derived {
                Some(key) => Some(key@),
                None => None,
            },
        ),
{
    match derived {
        None => Err(ErrorCode::InvalidMetadata),
        Some(expected_metadata) => {
            if metadata.equals(&expected_metadata) {
                Ok(())
            } else {
                Err(ErrorCode::KeyMismatch)
            }
        },
    }
}

/// Accepts a metadata account that is the one derived for the
/// collateral item under the metadata program.
pub fn validate(
    metadata_bump: u8,
    metadata: &StoredPubkey,
    deposit_nft_mint: &StoredPubkey,
    metadata_program_id: &StoredPubkey,
) -> (r: Result<(), ErrorCode>)
    ensures
        r == validate_spec(metadata_bump, metadata@, deposit_nft_mint@, metadata_program_id@),
{
    let mut prefix: Vec<u8> = Vec::new();
    prefix.push(109);
    prefix.push(101);
    prefix.push(116);
    prefix.push(97);
    prefix.push(100);
    prefix.push(97);
    prefix.push(116);
    prefix.push(97);
    let mut bump: Vec<u8> = Vec::new();
    bump.push(metadata_bump);
    let mut seeds: Vec<Vec<u8>> = Vec::new();
    seeds.push(prefix);
    seeds.push(metadata_program_id.to_vec());
    seeds.push(deposit_nft_mint.to_vec());
    seeds.push(bump);
    proof {
        assert(prefix@ =~= metadata_prefix());
        assert(bump@ =~= seq![metadata_bump]);
        assert(bytes_of(seeds@) =~= metadata_seeds(
            metadata_program_id@,
            deposit_nft_mint@,
            metadata_bump,
        ));
    }
    match_derived(metadata, create_program_address(&seeds, metadata_program_id))
}

} // verus!
