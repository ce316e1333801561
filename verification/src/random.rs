//! Seeding and word handling of the system's pseudo-random number generator.
//!
//! The generator itself is a single engine that the operating system owns. It
//! is seeded from an array of 32-bit words and hands out 32-bit words. This
//! module holds what happens on this side of it: the seed buffer and its
//! length rule, the words that a seed's bytes stand for, and the way two
//! drawn words make one 64-bit value.

use vstd::prelude::*;

verus! {

/// Whether `len` bytes can serve as a seed: the engine consumes whole 32-bit
/// words, and at least one of them.
pub open spec fn valid_seed_length(len: usize) -> bool {
    len > 0 && len % 4 == 0
}

/// The order in which the four bytes of a word lie in memory.
#[derive(Clone, Copy, PartialEq, Eq, Debug, Structural)]
pub enum ByteOrder {
    /// The least significant byte comes first.
    LittleEndian,
    /// The most significant byte comes first.
    BigEndian,
}

/// The word that the first four bytes of `bytes` stand for in `order`.
pub open spec fn spec_word(bytes: Seq<u8>, order: ByteOrder) -> u32
    recommends
        bytes.len() >= 4,
{
    match order {
        ByteOrder::LittleEndian => (bytes[0] + bytes[1] * 0x100 + bytes[2] * 0x1_0000 + bytes[3]
            * 0x100_0000) as u32,
        ByteOrder::BigEndian => (bytes[3] + bytes[2] * 0x100 + bytes[1] * 0x1_0000 + bytes[0]
            * 0x100_0000) as u32,
    }
}

/// The words that `bytes` stand for in `order`: word `i` is made of the bytes
/// `4 * i` to `4 * i + 3`. Bytes beyond the last whole word are left out.
pub open spec fn spec_words(bytes: Seq<u8>, order: ByteOrder) -> Seq<u32> {
    Seq::new(bytes.len() / 4, |i: int| spec_word(bytes.subrange(4 * i, 4 * i + 4), order))
}

/// The 64-bit value made of two words drawn one after the other: the first
/// draw gives the low half, the second the high half.
pub open spec fn spec_u64_from_draws(first: u32, second: u32) -> u64 {
    (first + second * 0x1_0000_0000) as u64
}

/// `u32::from_ne_bytes`: the word that four bytes stand for in the byte order
/// of the machine this runs on. The contract claims that this order is one of
/// the two of [`ByteOrder`], and does not say which.
#[verifier::external_body]
fn word_from_ne_bytes(bytes: [u8; 4]) -> (word: u32)
    ensures
        word == spec_word(bytes@, ByteOrder::LittleEndian) || word == spec_word(
            bytes@,
            ByteOrder::BigEndian,
        ),
{
    u32::from_ne_bytes(bytes)
}

/// The byte order of the machine this runs on, found by looking at the word
/// that the bytes 1, 0, 0, 0 make there.
fn native_byte_order() -> ByteOrder {
    byte_order_of_probe(word_from_ne_bytes([1, 0, 0, 0]))
}

/// The bytes that are read as a word to find a machine's byte order.
pub open spec fn probe_bytes() -> Seq<u8> {
    seq![1u8, 0u8, 0u8, 0u8]
}

/// The byte order of a machine on which the bytes 1, 0, 0, 0 make the word
/// `probe`: the least significant byte comes first where that word is 1,
/// and the most significant one where it is anything else. For the word that
/// either order makes of these bytes, the order found is that order.
pub fn byte_order_of_probe(probe: u32) -> (order: ByteOrder)
    ensures
        order == if probe == 1 {
            ByteOrder::LittleEndian
        } else {
            ByteOrder::BigEndian
        },
        probe == spec_word(probe_bytes(), ByteOrder::LittleEndian) || probe == spec_word(
            probe_bytes(),
            ByteOrder::BigEndian,
        ) ==> spec_word(probe_bytes(), order) == probe,
{
    if probe == 1 {
        ByteOrder::LittleEndian
    } else {
        ByteOrder::BigEndian
    }
}

/// A seed of `SEED_LENGTH` bytes for [`Random`].
///
/// This is a container and no more: how good a seed it holds depends on how
/// its bytes were filled in.
#[derive(Debug)]
pub struct RandomSeed<const SEED_LENGTH: usize> {
    seed: [u8; SEED_LENGTH],
}

impl<const SEED_LENGTH: usize> View for RandomSeed<SEED_LENGTH> {
    type V = Seq<u8>;

    /// The bytes of the seed, `SEED_LENGTH` of them.
    closed spec fn view(&self) -> Seq<u8> {
        self.seed@
    }
}

impl<const SEED_LENGTH: usize> RandomSeed<SEED_LENGTH> {
    /// Creates a zeroed seed.
    ///
    /// This is there to set up the buffer, which is then filled through
    /// [`buffer`](Self::buffer). A zeroed seed protects nothing.
    pub fn new_empty() -> (seed: Self)
        requires
            valid_seed_length(SEED_LENGTH),
        ensures
            seed@ == Seq::new(SEED_LENGTH as nat, |i: int| 0u8),
    {
        let seed = RandomSeed { seed: [0u8; SEED_LENGTH] };
        assert(seed@ =~= Seq::new(SEED_LENGTH as nat, |i: int| 0u8));
        seed
    }

    /// Creates a zeroed seed where `SEED_LENGTH` is a positive multiple of 4,
    /// and none where it is not.
    pub fn try_new_empty() -> (seed: Option<Self>)
        ensures
            seed is Some <==> valid_seed_length(SEED_LENGTH),
            seed matches Some(s) ==> s@ == Seq::new(SEED_LENGTH as nat, |i: int| 0u8),
    {
        if SEED_LENGTH > 0 && SEED_LENGTH % 4 == 0 {
            Some(Self::new_empty())
        } else {
            None
        }
    }

    /// The internal buffer, to be filled by the caller: what is written to
    /// it is what the seed holds afterwards.
    pub fn buffer(&mut self) -> (bytes: &mut [u8])
        ensures
            bytes@ == old(self)@,
            bytes@.len() == SEED_LENGTH,
            final(self)@ == final(bytes)@,
    {
        &mut self.seed
    }

    /// The words that the seed's bytes stand for in `order`.
    pub fn words(&self, order: ByteOrder) -> (words: Vec<u32>)
        ensures
            words@ == spec_words(self@, order),
            words@.len() == SEED_LENGTH / 4,
    {
        let count: usize = SEED_LENGTH / 4;
        let mut words: Vec<u32> = Vec::with_capacity(count);
        let mut i: usize = 0;
        while i < count
            invariant
                count == SEED_LENGTH / 4,
                i <= count,
                words@.len() == i,
                forall|j: int|
                    0 <= j < i ==> words@[j] == spec_word(
                        self@.subrange(4 * j, 4 * j + 4),
                        order,
                    ),
            decreases count - i,
        {
            let b0: u32 = self.seed[4 * i] as u32;
            let b1: u32 = self.seed[4 * i + 1] as u32;
            let b2: u32 = self.seed[4 * i + 2] as u32;
            let b3: u32 = self.seed[4 * i + 3] as u32;
            let word: u32 = match order {
                ByteOrder::LittleEndian => b0 + b1 * 0x100 + b2 * 0x1_0000 + b3 * 0x100_0000,
                ByteOrder::BigEndian => b3 + b2 * 0x100 + b1 * 0x1_0000 + b0 * 0x100_0000,
            };
            words.push(word);
            i += 1;
        }
        assert(words@ =~= spec_words(self@, order));
        words
    }
}

/// The handle of the system's generator.
///
/// There is one engine, so there should be one handle: seeding a second one
/// seeds the engine again, and both then draw from the same stream. The only
/// way to a handle is [`from_seed`](Self::from_seed).
#[derive(Debug)]
pub struct Random<const SEED_LENGTH: usize> {
    private: (),
}

impl<const SEED_LENGTH: usize> Random<SEED_LENGTH> {
    /// Uses up `seed` and returns the handle together with the words that the
    /// engine is to be seeded with: the seed's bytes, read as words in the
    /// byte order of the machine this runs on.
    pub fn from_seed(seed: RandomSeed<SEED_LENGTH>) -> (seeded: (Self, Vec<u32>))
        requires
            valid_seed_length(SEED_LENGTH),
        ensures
            seeded.1@ == spec_words(seed@, ByteOrder::LittleEndian) || seeded.1@ == spec_words(
                seed@,
                ByteOrder::BigEndian,
            ),
            seeded.1@.len() == SEED_LENGTH / 4,
    {
        let words = seed.words(native_byte_order());
        (Random { private: () }, words)
    }

    /// The next 64-bit value, made of two words drawn from the engine one
    /// after the other.
    pub fn next_u64(&self, first: u32, second: u32) -> (value: u64)
        ensures
            value == spec_u64_from_draws(first, second),
    {
        let x: u64 = first as u64;
        let y: u64 = second as u64;
        assert((y << 32) | x == x + y * 0x1_0000_0000) by (bit_vector)
            requires
                x <= 0xffff_ffff,
                y <= 0xffff_ffff,
        ;
        (y << 32) | x
    }
}

/// A seed holds `SEED_LENGTH` bytes, whatever was written to it.
pub proof fn lemma_seed_length<const SEED_LENGTH: usize>(seed: RandomSeed<SEED_LENGTH>)
    ensures
        seed@.len() == SEED_LENGTH,
{
}

/// Both draws can be read off the 64-bit value made of them: the first is its
/// low half and the second its high half.
pub proof fn lemma_u64_from_draws_halves(first: u32, second: u32)
    ensures
        spec_u64_from_draws(first, second) % 0x1_0000_0000 == first,
        spec_u64_from_draws(first, second) / 0x1_0000_0000 == second,
{
}

} // verus!
