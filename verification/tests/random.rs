use rand_core::RngCore;
use riot_wrappers::random::{byte_order_of_probe, ByteOrder, Random, RandomSeed};

/// A generator that hands out the words it was given, in order.
struct Replay {
    words: Vec<u32>,
    at: usize,
}

impl RngCore for Replay {
    fn next_u32(&mut self) -> u32 {
        let word = self.words[self.at];
        self.at += 1;
        word
    }

    fn next_u64(&mut self) -> u64 {
        rand_core::impls::next_u64_via_u32(self)
    }

    fn fill_bytes(&mut self, dest: &mut [u8]) {
        rand_core::impls::fill_bytes_via_next(self, dest)
    }

    fn try_fill_bytes(&mut self, dest: &mut [u8]) -> Result<(), rand_core::Error> {
        self.fill_bytes(dest);
        Ok(())
    }
}

fn seed_of<const N: usize>(bytes: [u8; N]) -> RandomSeed<N> {
    let mut seed = RandomSeed::<N>::try_new_empty().unwrap();
    seed.buffer().copy_from_slice(&bytes);
    seed
}

#[test]
fn new_empty_is_all_zero() {
    let mut seed = RandomSeed::<16>::new_empty();
    assert_eq!(seed.buffer().len(), 16);
    assert!(seed.buffer().iter().all(|b| *b == 0));
}

#[test]
fn new_empty_of_one_word() {
    let mut seed = RandomSeed::<4>::new_empty();
    assert_eq!(seed.buffer(), &[0u8, 0, 0, 0][..]);
}

#[test]
fn new_empty_of_many_lengths() {
    assert_eq!(RandomSeed::<8>::new_empty().buffer().to_vec(), vec![0u8; 8]);
    assert_eq!(RandomSeed::<32>::new_empty().buffer().to_vec(), vec![0u8; 32]);
    assert_eq!(RandomSeed::<1024>::new_empty().buffer().to_vec(), vec![0u8; 1024]);
}

#[test]
fn try_new_empty_takes_multiples_of_four() {
    assert_eq!(RandomSeed::<4>::try_new_empty().unwrap().buffer().to_vec(), vec![0u8; 4]);
    assert_eq!(RandomSeed::<12>::try_new_empty().unwrap().buffer().to_vec(), vec![0u8; 12]);
    assert_eq!(RandomSeed::<64>::try_new_empty().unwrap().buffer().to_vec(), vec![0u8; 64]);
}

#[test]
fn try_new_empty_refuses_other_lengths() {
    assert!(RandomSeed::<1>::try_new_empty().is_none());
    assert!(RandomSeed::<2>::try_new_empty().is_none());
    assert!(RandomSeed::<3>::try_new_empty().is_none());
    assert!(RandomSeed::<5>::try_new_empty().is_none());
    assert!(RandomSeed::<6>::try_new_empty().is_none());
    assert!(RandomSeed::<7>::try_new_empty().is_none());
    assert!(RandomSeed::<1023>::try_new_empty().is_none());
}

#[test]
fn try_new_empty_refuses_no_bytes() {
    assert!(RandomSeed::<0>::try_new_empty().is_none());
}

#[test]
fn buffer_keeps_what_is_written() {
    let mut seed = RandomSeed::<8>::new_empty();
    seed.buffer()[2] = 7;
    seed.buffer()[7] = 0xff;
    assert_eq!(seed.buffer(), &[0u8, 0, 7, 0, 0, 0, 0, 0xff][..]);
    assert_eq!(seed.buffer().len(), 8);
}

#[test]
fn words_little_endian() {
    let seed = seed_of([0x01, 0x02, 0x03, 0x04, 0xff, 0x00, 0x00, 0x80]);
    assert_eq!(seed.words(ByteOrder::LittleEndian), vec![0x0403_0201, 0x8000_00ff]);
}

#[test]
fn words_big_endian() {
    let seed = seed_of([0x01, 0x02, 0x03, 0x04, 0xff, 0x00, 0x00, 0x80]);
    assert_eq!(seed.words(ByteOrder::BigEndian), vec![0x0102_0304, 0xff00_0080]);
}

#[test]
fn words_of_extreme_bytes() {
    let ones = seed_of([0xff; 4]);
    assert_eq!(ones.words(ByteOrder::LittleEndian), vec![0xffff_ffff]);
    assert_eq!(ones.words(ByteOrder::BigEndian), vec![0xffff_ffff]);
    let zeros = RandomSeed::<4>::new_empty();
    assert_eq!(zeros.words(ByteOrder::LittleEndian), vec![0]);
    assert_eq!(zeros.words(ByteOrder::BigEndian), vec![0]);
}

#[test]
fn words_agree_with_std() {
    let bytes = [0x10, 0x32, 0x54, 0x76, 0x98, 0xba, 0xdc, 0xfe, 0x00, 0x01, 0x02, 0x03];
    let seed = seed_of(bytes);
    let le: Vec<u32> =
        bytes.chunks(4).map(|c| u32::from_le_bytes([c[0], c[1], c[2], c[3]])).collect();
    let be: Vec<u32> =
        bytes.chunks(4).map(|c| u32::from_be_bytes([c[0], c[1], c[2], c[3]])).collect();
    assert_eq!(seed.words(ByteOrder::LittleEndian), le);
    assert_eq!(seed.words(ByteOrder::BigEndian), be);
}

#[test]
fn from_seed_hands_out_native_words() {
    let bytes = [0xde, 0xad, 0xbe, 0xef, 0x01, 0x00, 0x00, 0x00];
    let (_handle, words) = Random::from_seed(seed_of(bytes));
    let native = vec![
        u32::from_ne_bytes([0xde, 0xad, 0xbe, 0xef]),
        u32::from_ne_bytes([0x01, 0x00, 0x00, 0x00]),
    ];
    assert_eq!(words, native);
}

#[test]
fn from_seed_hands_out_a_quarter_as_many_words() {
    let (_a, four) = Random::from_seed(RandomSeed::<4>::new_empty());
    assert_eq!(four.len(), 1);
    let (_b, sixteen) = Random::from_seed(RandomSeed::<16>::new_empty());
    assert_eq!(sixteen, vec![0u32; 4]);
    let (_c, many) = Random::from_seed(RandomSeed::<1024>::new_empty());
    assert_eq!(many.len(), 256);
}

#[test]
fn from_seed_is_one_of_the_two_orders() {
    let bytes = [1, 2, 3, 4, 5, 6, 7, 8];
    let (_handle, words) = Random::from_seed(seed_of(bytes));
    let le = seed_of(bytes).words(ByteOrder::LittleEndian);
    let be = seed_of(bytes).words(ByteOrder::BigEndian);
    assert!(words == le || words == be);
}

#[test]
fn same_seed_gives_same_words() {
    let bytes = [9, 8, 7, 6, 5, 4, 3, 2, 1, 0, 0xaa, 0xbb];
    let (_a, first) = Random::from_seed(seed_of(bytes));
    let (_b, second) = Random::from_seed(seed_of(bytes));
    assert_eq!(first, second);
    assert_eq!(first.len(), 3);
}

#[test]
fn next_u64_puts_first_draw_low() {
    let (handle, _) = Random::from_seed(RandomSeed::<4>::new_empty());
    assert_eq!(handle.next_u64(1, 2), 0x0000_0002_0000_0001);
    assert_eq!(handle.next_u64(0xdead_beef, 0x0123_4567), 0x0123_4567_dead_beef);
}

#[test]
fn next_u64_of_extreme_draws() {
    let (handle, _) = Random::from_seed(RandomSeed::<4>::new_empty());
    assert_eq!(handle.next_u64(0, 0), 0);
    assert_eq!(handle.next_u64(0xffff_ffff, 0), 0xffff_ffff);
    assert_eq!(handle.next_u64(0, 0xffff_ffff), 0xffff_ffff_0000_0000);
    assert_eq!(handle.next_u64(0xffff_ffff, 0xffff_ffff), u64::MAX);
}

#[test]
fn next_u64_halves_are_the_draws() {
    let (handle, _) = Random::from_seed(RandomSeed::<4>::new_empty());
    let value = handle.next_u64(0x89ab_cdef, 0x7654_3210);
    assert_eq!(value % 0x1_0000_0000, 0x89ab_cdef);
    assert_eq!(value / 0x1_0000_0000, 0x7654_3210);
}

#[test]
fn next_u64_agrees_with_rand_core() {
    let draws = [
        (0u32, 0u32),
        (1, 2),
        (0xffff_ffff, 0),
        (0, 0xffff_ffff),
        (0xdead_beef, 0xcafe_f00d),
        (0x8000_0000, 0x8000_0000),
    ];
    let (handle, _) = Random::from_seed(RandomSeed::<4>::new_empty());
    for (first, second) in draws {
        let mut replay = Replay { words: vec![first, second], at: 0 };
        assert_eq!(handle.next_u64(first, second), replay.next_u64());
    }
}

#[test]
fn byte_order_of_the_two_probe_words() {
    assert_eq!(byte_order_of_probe(0x0000_0001), ByteOrder::LittleEndian);
    assert_eq!(byte_order_of_probe(0x0100_0000), ByteOrder::BigEndian);
}

#[test]
fn byte_order_of_another_word_is_big_endian() {
    assert_eq!(byte_order_of_probe(0), ByteOrder::BigEndian);
    assert_eq!(byte_order_of_probe(2), ByteOrder::BigEndian);
    assert_eq!(byte_order_of_probe(u32::MAX), ByteOrder::BigEndian);
}

#[test]
fn byte_order_of_this_machine() {
    let order = byte_order_of_probe(u32::from_ne_bytes([1, 0, 0, 0]));
    let bytes = [0x11, 0x22, 0x33, 0x44];
    assert_eq!(seed_of(bytes).words(order), vec![u32::from_ne_bytes(bytes)]);
}
