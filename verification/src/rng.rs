//! The governor's randomness provider: a fixed-seed generator for
//! deterministic runs, or a non-deterministic one otherwise.
//!
//! The deterministic generator is modelled as a stream of 32-bit words that
//! is a pure function of its seed: `std_rng_word(seed, k)` names the `k`-th
//! word, and `std_rng_seed` / `std_rng_pos` describe what a generator value
//! holds (its seed and how far into the stream it has read). Every draw is
//! specified over that model, so reproducibility is a theorem here rather
//! than an observation. Of the non-deterministic generator nothing is
//! assumed.

use vstd::prelude::*;

verus! {

#[verifier::external_type_specification]
#[verifier::external_body]
pub struct ExStdRng(rand::rngs::StdRng);

#[verifier::external_type_specification]
#[verifier::external_body]
pub struct ExThreadRng(rand::rngs::ThreadRng);

/// The seed a deterministic generator was built from.
pub uninterp spec fn std_rng_seed(r: rand::rngs::StdRng) -> u64;

/// How many 32-bit words a deterministic generator has consumed from its
/// stream.
pub uninterp spec fn std_rng_pos(r: rand::rngs::StdRng) -> nat;

/// The `pos`-th 32-bit word of the stream that a deterministic generator
/// seeded with `seed` produces.
pub uninterp spec fn std_rng_word(seed: u64, pos: nat) -> u32;

/// Relies on rand's `StdRng::seed_from_u64`: seeding is a pure function of
/// the seed, and a fresh generator has consumed no words yet.
#[verifier::external_body]
fn std_rng_from_seed(seed: u64) -> (r: rand::rngs::StdRng)
    ensures
        std_rng_seed(r) == seed,
        std_rng_pos(r) == 0,
{
    <rand::rngs::StdRng as rand::SeedableRng>::seed_from_u64(seed)
}

/// Relies on rand's `RngCore::next_u32` for `StdRng`: the generator emits a
/// stream of 32-bit words that is a pure function of its seed, and each call
/// returns exactly the next word.
#[verifier::external_body]
fn std_rng_next_u32(r: &mut rand::rngs::StdRng) -> (w: u32)
    ensures
        std_rng_seed(*final(r)) == std_rng_seed(*old(r)),
        std_rng_pos(*final(r)) == std_rng_pos(*old(r)) + 1,
        w == std_rng_word(std_rng_seed(*old(r)), std_rng_pos(*old(r))),
{
    rand::RngCore::next_u32(r)
}

/// Relies on rand's `thread_rng`: a non-deterministic generator seeded from
/// the environment. Nothing is assumed about it.
#[verifier::external_body]
fn thread_rng_new() -> (r: rand::rngs::ThreadRng) {
    rand::thread_rng()
}

/// Relies on rand's `RngCore::next_u32` for `ThreadRng`; nothing is assumed
/// of the result.
#[verifier::external_body]
fn thread_rng_next_u32(r: &mut rand::rngs::ThreadRng) -> (w: u32) {
    rand::RngCore::next_u32(r)
}

/// The low-`j`-th byte of a 32-bit word, little-endian.
pub open spec fn spec_word_byte(w: u32, j: int) -> u8 {
    ((w >> ((j * 8) as u32)) & 0xff) as u8
}

/// A 64-bit value assembled from two 32-bit words, low word first.
pub open spec fn spec_u64_from_words(lo: u32, hi: u32) -> u64 {
    (lo as u64) | ((hi as u64) << 32)
}

/// The governor's random source: a closed set of two variants, selected once
/// from configuration.
pub enum GovernorRng {
    /// A fixed-seed generator for reproducible runs.
    Deterministic(rand::rngs::StdRng),
    /// A non-deterministic generator seeded from the environment.
    Random(rand::rngs::ThreadRng),
}

impl GovernorRng {
    /// Whether this is the fixed-seed variant.
    pub open spec fn is_deterministic(self) -> bool {
        self is Deterministic
    }

    /// The seed of a deterministic generator.
    pub open spec fn seed(self) -> u64
        recommends
            self.is_deterministic(),
    {
        match self {
            GovernorRng::Deterministic(r) => std_rng_seed(r),
            GovernorRng::Random(_) => 0,
        }
    }

    /// How many 32-bit words a deterministic generator has consumed.
    pub open spec fn pos(self) -> nat
        recommends
            self.is_deterministic(),
    {
        match self {
            GovernorRng::Deterministic(r) => std_rng_pos(r),
            GovernorRng::Random(_) => 0,
        }
    }

    /// The next `n` 32-bit words a deterministic generator will produce.
    pub open spec fn upcoming_words(self, n: nat) -> Seq<u32>
        recommends
            self.is_deterministic(),
    {
        Seq::new(n, |i: int| std_rng_word(self.seed(), (self.pos() + i) as nat))
    }

    /// Build the fixed-seed variant, fresh at position zero.
    pub fn new_deterministic(seed: u64) -> (r: GovernorRng)
        ensures
            r.is_deterministic(),
            r.seed() == seed,
            r.pos() == 0,
    {
        GovernorRng::Deterministic(std_rng_from_seed(seed))
    }

    /// Build the non-deterministic variant.
    pub fn new_random() -> (r: GovernorRng)
        ensures
            !r.is_deterministic(),
    {
        GovernorRng::Random(thread_rng_new())
    }

    /// Draw 32 bits. For a deterministic generator this is exactly the next
    /// word of the seed's stream.
    pub fn next_u32(&mut self) -> (w: u32)
        ensures
            final(self).is_deterministic() == old(self).is_deterministic(),
            old(self).is_deterministic() ==> {
                &&& final(self).seed() == old(self).seed()
                &&& final(self).pos() == old(self).pos() + 1
                &&& w == std_rng_word(old(self).seed(), old(self).pos())
            },
    {
        match self {
            GovernorRng::Deterministic(r) => std_rng_next_u32(r),
            GovernorRng::Random(r) => thread_rng_next_u32(r),
        }
    }

    /// Draw 64 bits: two consecutive 32-bit words, low word first.
    pub fn next_u64(&mut self) -> (x: u64)
        ensures
            final(self).is_deterministic() == old(self).is_deterministic(),
            old(self).is_deterministic() ==> {
                &&& final(self).seed() == old(self).seed()
                &&& final(self).pos() == old(self).pos() + 2
                &&& x == spec_u64_from_words(
                    std_rng_word(old(self).seed(), old(self).pos()),
                    std_rng_word(old(self).seed(), (old(self).pos() + 1) as nat),
                )
            },
    {
        let lo = self.next_u32();
        let hi = self.next_u32();
        (lo as u64) | ((hi as u64) << 32)
    }

    /// Fill a buffer with random bytes: successive 32-bit words serialized
    /// little-endian, the last word used only as far as the buffer reaches.
    /// The buffer's length does not change.
    pub fn fill_bytes(&mut self, dest: &mut Vec<u8>)
        ensures
            final(dest)@.len() == old(dest)@.len(),
            final(self).is_deterministic() == old(self).is_deterministic(),
            old(self).is_deterministic() ==> {
                &&& final(self).seed() == old(self).seed()
                &&& final(self).pos() == old(self).pos() + ((old(dest)@.len() + 3) / 4)
                &&& forall|i: int|
                    0 <= i < old(dest)@.len() ==> final(dest)@[i] == spec_word_byte(
                        std_rng_word(old(self).seed(), (old(self).pos() + i / 4) as nat),
                        i % 4,
                    )
            },
    {
        let ghost init_rng = *self;
        let len = dest.len();
        let mut i: usize = 0;
        while i < len
            invariant
                dest@.len() == len,
                i <= len,
                i % 4 == 0 || i == len,
                self.is_deterministic() == init_rng.is_deterministic(),
                init_rng.is_deterministic() ==> {
                    &&& self.seed() == init_rng.seed()
                    &&& self.pos() == init_rng.pos() + (i + 3) / 4
                    &&& forall|b: int|
                        0 <= b < i ==> dest@[b] == spec_word_byte(
                            std_rng_word(init_rng.seed(), (init_rng.pos() + b / 4) as nat),
                            b % 4,
                        )
                },
            decreases len - i,
        {
            let ghost i0 = i as int;
            let w = self.next_u32();
            dest.set(i, #[verifier::truncate] ((w & 0xff) as u8));
            if len - i > 1 {
                dest.set(i + 1, #[verifier::truncate] (((w >> 8u32) & 0xff) as u8));
            }
            if len - i > 2 {
                dest.set(i + 2, #[verifier::truncate] (((w >> 16u32) & 0xff) as u8));
            }
            if len - i > 3 {
                dest.set(i + 3, #[verifier::truncate] (((w >> 24u32) & 0xff) as u8));
            }
            if len - i >= 4 {
                i = i + 4;
            } else {
                i = len;
            }
            proof {
                assert(((w >> ((0 * 8) as u32)) & 0xff) as u8 == (w & 0xff) as u8) by (bit_vector);
                assert(((w >> ((1 * 8) as u32)) & 0xff) as u8 == ((w >> 8u32) & 0xff) as u8)
                    by (bit_vector);
                assert(((w >> ((2 * 8) as u32)) & 0xff) as u8 == ((w >> 16u32) & 0xff) as u8)
                    by (bit_vector);
                assert(((w >> ((3 * 8) as u32)) & 0xff) as u8 == ((w >> 24u32) & 0xff) as u8)
                    by (bit_vector);
                if init_rng.is_deterministic() {
                    assert forall|b: int| 0 <= b < i implies dest@[b] == spec_word_byte(
                        std_rng_word(init_rng.seed(), (init_rng.pos() + b / 4) as nat),
                        b % 4,
                    ) by {
                        if b >= i0 {
                            assert(b / 4 == i0 / 4 && b % 4 == b - i0) by (nonlinear_arith)
                                requires
                                    i0 % 4 == 0,
                                    i0 <= b < i0 + 4,
                            ;
                        }
                    }
                }
            }
        }
        proof {
            if init_rng.is_deterministic() {
                assert(self.pos() == init_rng.pos() + ((len + 3) / 4));
            }
        }
    }
}

/// Deterministic generators are reproducible: two generators with the same
/// seed, read to the same position, will produce the same words from here
/// on, however many are drawn. With `GovernorState::get_rng`, which hands
/// every deterministic governor a fresh generator with one fixed seed, this
/// makes any two governors in deterministic mode produce identical random
/// sequences.
pub proof fn lemma_deterministic_rng_reproducible(a: GovernorRng, b: GovernorRng, n: nat)
    requires
        a.is_deterministic(),
        b.is_deterministic(),
        a.seed() == b.seed(),
        a.pos() == b.pos(),
    ensures
        a.upcoming_words(n) == b.upcoming_words(n),
{
    assert(a.upcoming_words(n) =~= b.upcoming_words(n));
}

} // verus!
