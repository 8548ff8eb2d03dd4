//! The kitty asset: an immutable 16-byte DNA, and the attributes derived from it.
use crate::codec::{breeding_payload, creation_payload, encode_breeding_payload, encode_creation_payload};
use crate::hashing::{blake2_128, blake2_128_of};
use crate::pallet::Error;
use vstd::prelude::*;

verus! {

/// A kitty is nothing but its DNA; everything else about it is computed.
#[derive(Clone, Copy, Debug, PartialEq, Eq)]
pub struct Kitty(pub [u8; 16]);

#[derive(Clone, Copy, Debug, PartialEq, Eq, Structural)]
pub enum Gender {
    Male,
    Female,
}

/// The largest byte of `s`, or 0 when `s` is empty.
pub open spec fn max_byte(s: Seq<u8>) -> u8
    decreases s.len(),
{
    if s.len() == 0 {
        0
    } else {
        let m = max_byte(s.drop_last());
        if s.last() > m {
            s.last()
        } else {
            m
        }
    }
}

/// The gender carried by a DNA: male when its largest byte is even, female when
/// it is odd. DNA without bytes counts as male.
pub open spec fn gender_of(dna: Seq<u8>) -> Gender {
    if max_byte(dna) % 2 == 0 {
        Gender::Male
    } else {
        Gender::Female
    }
}

/// The DNA of the kitty with index `kitty_id` created for `owner` from the
/// randomness `random` in the extrinsic at `extrinsic_index`.
pub open spec fn created_dna(
    owner: u64,
    random: Seq<u8>,
    kitty_id: u32,
    extrinsic_index: Option<u32>,
) -> [u8; 16] {
    blake2_128_of(creation_payload(owner, random, kitty_id, extrinsic_index))
}

/// The DNA of the kitty with index `kitty_id` bred from parents with DNA
/// `first` and `second`, from the randomness `random` in the extrinsic at
/// `extrinsic_index`.
pub open spec fn bred_dna(
    first: Seq<u8>,
    second: Seq<u8>,
    random: Seq<u8>,
    kitty_id: u32,
    extrinsic_index: Option<u32>,
) -> [u8; 16] {
    blake2_128_of(breeding_payload(first, second, random, kitty_id, extrinsic_index))
}

/// Why two kitties cannot be parents together, checked in this order: the same
/// DNA twice, then the same gender twice.
pub open spec fn breed_error(first: Kitty, second: Kitty) -> Option<Error> {
    if first.0@ == second.0@ {
        Some(Error::KittyPartnerMissing)
    } else if gender_of(first.0@) == gender_of(second.0@) {
        Some(Error::KittyGendersNotCompatible)
    } else {
        None
    }
}

/// Whether two DNA arrays hold the same bytes.
fn same_dna(a: &[u8; 16], b: &[u8; 16]) -> (r: bool)
    ensures
        r == (a@ == b@),
{
    let mut i: usize = 0;
    while i < 16
        invariant
            i <= 16,
            a@.subrange(0, i as int) == b@.subrange(0, i as int),
        decreases 16 - i,
    {
        if a[i] != b[i] {
            assert(a@[i as int] != b@[i as int]);
            return false;
        }
        proof {
            assert(a@.subrange(0, i + 1) =~= a@.subrange(0, i as int).push(a@[i as int]));
            assert(b@.subrange(0, i + 1) =~= b@.subrange(0, i as int).push(b@[i as int]));
        }
        i = i + 1;
    }
    proof {
        assert(a@.subrange(0, 16) =~= a@);
        assert(b@.subrange(0, 16) =~= b@);
    }
    true
}

impl Kitty {
    /// A new kitty for `owner`, its DNA hashed from the owner, the randomness
    /// `random` drawn for it, its index `kitty_id` and the index of the
    /// extrinsic that creates it.
    pub fn new(owner: u64, random: [u8; 32], kitty_id: u32, extrinsic_index: Option<u32>) -> (k:
        Kitty)
        ensures
            k == Kitty(created_dna(owner, random@, kitty_id, extrinsic_index)),
    {
        let payload = encode_creation_payload(owner, &random, kitty_id, extrinsic_index);
        Kitty(blake2_128(&payload))
    }

    pub(crate) fn ensure_different_kitty(first: &Kitty, second: &Kitty) -> (r: Result<(), Error>)
        ensures
            r == (if first.0@ == second.0@ {
                Err(Error::KittyPartnerMissing)
            } else {
                Ok(())
            }),
    {
        if !same_dna(&first.0, &second.0) {
            Ok(())
        } else {
            Err(Error::KittyPartnerMissing)
        }
    }

    pub(crate) fn ensure_different_gender(first: &Kitty, second: &Kitty) -> (r: Result<(), Error>)
        ensures
            r == (if gender_of(first.0@) == gender_of(second.0@) {
                Err(Error::KittyGendersNotCompatible)
            } else {
                Ok(())
            }),
    {
        if first.gender() != second.gender() {
            Ok(())
        } else {
            Err(Error::KittyGendersNotCompatible)
        }
    }

    /// The child of `first` and `second`, its DNA hashed from both parents'
    /// DNA, the randomness `random`, its index `kitty_id` and the index of the
    /// extrinsic that breeds it.
    pub fn breed(
        first: Kitty,
        second: Kitty,
        random: [u8; 32],
        kitty_id: u32,
        extrinsic_index: Option<u32>,
    ) -> (r: Result<Kitty, Error>)
        ensures
            r == (match breed_error(first, second) {
                Some(e) => Err(e),
                None => Ok(Kitty(bred_dna(first.0@, second.0@, random@, kitty_id, extrinsic_index))),
            }),
    {
        Kitty::ensure_different_kitty(&first, &second)?;
        Kitty::ensure_different_gender(&first, &second)?;
        let payload = encode_breeding_payload(
            &first.0,
            &second.0,
            &random,
            kitty_id,
            extrinsic_index,
        );
        Ok(Kitty(blake2_128(&payload)))
    }

    pub fn get_gender_from_dna(dna: [u8; 16]) -> (g: Gender)
        ensures
            g == gender_of(dna@),
    {
        let mut total: u8 = 0;
        let mut i: usize = 0;
        while i < 16
            invariant
                i <= 16,
                total == max_byte(dna@.subrange(0, i as int)),
            decreases 16 - i,
        {
            proof {
                assert(dna@.subrange(0, i + 1).drop_last() =~= dna@.subrange(0, i as int));
            }
            if dna[i] > total {
                total = dna[i];
            }
            i = i + 1;
        }
        proof {
            assert(dna@.subrange(0, 16) =~= dna@);
        }
        if total % 2 == 0 {
            Gender::Male
        } else {
            Gender::Female
        }
    }

    pub fn gender(&self) -> (g: Gender)
        ensures
            g == gender_of(self.0@),
    {
        Kitty::get_gender_from_dna(self.0)
    }
}

} // verus!
