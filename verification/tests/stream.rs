use codec_bench::seed::GenerationSeed;
use codec_bench::stream::{CountRange, Stream};
use rand_core::RngCore;

const REFERENCE: [u32; 6] = [0xa15c02b7, 0x7b47f409, 0xba1d3330, 0x83d2f293, 0xbfa4784b, 0xcbed606e];

#[test]
fn seed_keeps_its_constants() {
    let seed = GenerationSeed::new(3141592653, 5897932384);
    assert_eq!(seed.state, 3141592653);
    assert_eq!(seed.stream, 5897932384);
}

#[test]
fn new_stream_starts_at_zero() {
    let stream = Stream::new(GenerationSeed::new(42, 54));
    assert_eq!(stream.position, 0);
    assert_eq!(stream.seed, GenerationSeed::new(42, 54));
}

#[test]
fn draws_follow_the_reference_stream() {
    let mut stream = Stream::new(GenerationSeed::new(42, 54));
    for (index, expected) in REFERENCE.iter().enumerate() {
        assert_eq!(stream.position, index as u64);
        assert_eq!(stream.next_u32(), *expected);
    }
    assert_eq!(stream.position, 6);
}

#[test]
fn first_draw_is_not_the_seed() {
    let mut stream = Stream::new(GenerationSeed::new(42, 54));
    let first = stream.next_u32();
    assert_ne!(first as u64, 42);
    assert_ne!(first as u64, 54);
    assert_ne!(first, 0);
}

#[test]
fn draws_agree_with_a_running_generator() {
    let mut stream = Stream::new(GenerationSeed::new(3141592653, 5897932384));
    let mut generator = rand_pcg::Lcg64Xsh32::new(3141592653, 5897932384);
    for _ in 0..1000 {
        assert_eq!(stream.next_u32(), generator.next_u32());
    }
    for _ in 0..100 {
        assert_eq!(stream.next_u64(), generator.next_u64());
    }
    assert_eq!(stream.position, 1200);
}

#[test]
fn a_stream_can_be_entered_at_any_place() {
    let mut stream = Stream { seed: GenerationSeed::new(42, 54), position: 3 };
    assert_eq!(stream.next_u32(), REFERENCE[3]);
    assert_eq!(stream.next_u32(), REFERENCE[4]);
}

#[test]
fn positions_wrap_at_the_period() {
    let mut stream = Stream { seed: GenerationSeed::new(42, 54), position: u64::MAX };
    let mut generator = rand_pcg::Lcg64Xsh32::new(42, 54);
    generator.advance(u64::MAX);
    assert_eq!(stream.next_u32(), generator.next_u32());
    assert_eq!(stream.position, 0);
    assert_eq!(stream.next_u32(), REFERENCE[0]);
}

#[test]
fn next_u64_puts_the_first_draw_low() {
    let mut stream = Stream::new(GenerationSeed::new(42, 54));
    assert_eq!(stream.next_u64(), 0x7b47f409a15c02b7);
    assert_eq!(stream.position, 2);
    assert_eq!(stream.next_u64(), 0x83d2f293ba1d3330);
}

#[test]
fn below_reduces_the_draw() {
    let mut stream = Stream::new(GenerationSeed::new(42, 54));
    assert_eq!(stream.below(26), 1);
    assert_eq!(stream.below(1), 0);
    assert_eq!(stream.below(u32::MAX), 0xba1d3330);
    assert_eq!(stream.position, 3);
}

#[test]
fn count_in_selects_from_the_range() {
    let mut stream = Stream::new(GenerationSeed::new(42, 54));
    let range = CountRange::new(10, 20).unwrap();
    assert_eq!(stream.count_in(range), 15);
    assert_eq!(stream.position, 2);
}

#[test]
fn count_in_a_single_count_is_that_count() {
    for state in 0..50u64 {
        let mut stream = Stream::new(GenerationSeed::new(state, 7));
        let range = CountRange::exactly(10_000).unwrap();
        assert_eq!(stream.count_in(range), 10_000);
        assert_eq!(stream.position, 2);
    }
}

#[test]
fn count_range_refuses_empty_ranges() {
    assert_eq!(CountRange::new(5, 5), None);
    assert_eq!(CountRange::new(6, 5), None);
    assert_eq!(CountRange::new(0, 0), None);
    assert_eq!(CountRange::new(5, 6), Some(CountRange { min: 5, max: 6 }));
    assert_eq!(CountRange::new(0, usize::MAX), Some(CountRange { min: 0, max: usize::MAX }));
}

#[test]
fn exactly_is_the_range_of_one_count() {
    assert_eq!(CountRange::exactly(0), Some(CountRange { min: 0, max: 1 }));
    assert_eq!(CountRange::exactly(125_000), Some(CountRange { min: 125_000, max: 125_001 }));
    assert_eq!(CountRange::exactly(usize::MAX), None);
    assert_eq!(
        CountRange::exactly(usize::MAX - 1),
        Some(CountRange { min: usize::MAX - 1, max: usize::MAX })
    );
}
