//! Seeds of derived addresses.
//!
//! A derived address has no private key. Whoever can give again the seeds it
//! was derived from may act under it, so the seeds are kept as a value of their
//! own, made in one place and checked for shape there.

use vstd::prelude::*;

verus! {

/// The most seeds that an address can be derived from.
pub const MAX_SEEDS: usize = 16;

/// The most bytes that one seed can hold.
pub const MAX_SEED_LEN: usize = 32;

/// The bytes of each seed in a list.
pub open spec fn seeds_view(seeds: Seq<Vec<u8>>) -> Seq<Seq<u8>> {
    Seq::new(seeds.len(), |i: int| seeds[i]@)
}

/// The list is one that an address can be derived from.
pub open spec fn well_shaped(seeds: Seq<Seq<u8>>) -> bool {
    &&& seeds.len() <= MAX_SEEDS
    &&& forall|i: int| 0 <= i < seeds.len() ==> (#[trigger] seeds[i]).len() <= MAX_SEED_LEN
}

/// Seeds that an address can be derived from, in order.
#[derive(Debug, PartialEq, Eq)]
pub struct SignerSeeds {
    seeds: Vec<Vec<u8>>,
}

impl View for SignerSeeds {
    type V = Seq<Seq<u8>>;

    closed spec fn view(&self) -> Seq<Seq<u8>> {
        seeds_view(self.seeds@)
    }
}

impl SignerSeeds {
    #[verifier::type_invariant]
    spec fn shaped(self) -> bool {
        well_shaped(self@)
    }

    /// The seeds as a value, where their shape allows it: no more than
    /// `MAX_SEEDS` of them, none longer than `MAX_SEED_LEN`.
    pub fn new(seeds: Vec<Vec<u8>>) -> (made: Option<SignerSeeds>)
        ensures
            made is Some <==> well_shaped(seeds_view(seeds@)),
            made matches Some(s) ==> s@ == seeds_view(seeds@),
    {
        if seeds.len() > MAX_SEEDS {
            return None;
        }
        let mut i: usize = 0;
        while i < seeds.len()
            invariant
                i <= seeds.len(),
                forall|j: int| 0 <= j < i ==> (#[trigger] seeds_view(seeds@)[j]).len() <= MAX_SEED_LEN,
            decreases seeds.len() - i,
        {
            if seeds[i].len() > MAX_SEED_LEN {
                assert(seeds_view(seeds@)[i as int].len() > MAX_SEED_LEN);
                return None;
            }
            i += 1;
        }
        Some(SignerSeeds::of_shaped(seeds))
    }

    /// The seeds as a value, for seeds whose shape is known.
    pub(crate) fn of_shaped(seeds: Vec<Vec<u8>>) -> (made: SignerSeeds)
        requires
            well_shaped(seeds_view(seeds@)),
        ensures
            made@ == seeds_view(seeds@),
    {
        SignerSeeds { seeds }
    }

    /// The seeds, as the authorisation of an operation takes them.
    pub fn as_vec(&self) -> (seeds: &Vec<Vec<u8>>)
        ensures
            seeds_view(seeds@) == self@,
            well_shaped(self@),
    {
        proof {
            use_type_invariant(self);
        }
        &self.seeds
    }
}

} // verus!
