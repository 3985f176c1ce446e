use voxeller::noise::{domain_offsets, hash, Sample, SAMPLE_ONE};
use voxeller::terrain::{
    HALF, QUARTER, SIX_TENTHS, THREE_QUARTERS, THREE_TENTHS, TREE_THRESHOLD,
};

fn sample(value: f32) -> Sample {
    Sample::from_bits(value.to_bits()).unwrap()
}

#[test]
fn hash_has_fixed_values() {
    assert_eq!(hash(0, 0), 0);
    assert_eq!(hash(1, 0), 2_564_183_085);
    assert_eq!(hash(0, 1), 3_381_100_175);
    assert_eq!(hash(-1, -1), 3_397_616_457);
    assert_eq!(hash(47, 65_535), 2_319_508_828);
    assert_eq!(hash(12_345, -6_789), 1_237_825_667);
}

#[test]
fn hash_wraps_at_the_ends_of_the_range() {
    assert_eq!(hash(i32::MAX, i32::MIN), 2_478_555_385);
}

#[test]
fn hash_reaches_all_parts_of_the_range() {
    let mut tenths = [0; 10];
    for x in 0..100 {
        for z in 0..100 {
            let value = hash(x, z) as f32 / u32::MAX as f32;
            assert!((0.0..=1.0).contains(&value));
            tenths[((value * 10.0) as usize).min(9)] += 1;
        }
    }
    assert!(tenths.iter().all(|&n| n > 500));
}

#[test]
fn seeds_give_other_noise() {
    let seeds = [
        0u32,
        1,
        0xFFFF,
        0x1_0000,
        31_337,
        1_619 << 16,
        0x1234_5678,
        2_621_473_000,
        2_515_401_553,
        u32::MAX,
    ];
    let word = |seed: u32, x: i32, z: i32| {
        let (ox, oz) = domain_offsets(seed);
        hash(x + ox as i32, z + oz as i32)
    };
    for a in seeds {
        for b in seeds {
            for x in 0..50 {
                let same = word(a, x, 3) == word(b, x, 3) && word(a, x + 1, 3) == word(b, x + 1, 3);
                assert_eq!(same, a == b);
            }
        }
    }
}

#[test]
fn offsets_are_the_halves_of_the_seed() {
    assert_eq!(domain_offsets(0), (0, 0));
    assert_eq!(domain_offsets(0x1234_5678), (0x5678, 0x1234));
    assert_eq!(domain_offsets(u32::MAX), (0xFFFF, 0xFFFF));
}

#[test]
fn seeds_shift_apart() {
    let seeds = [0u32, 1, 0xFFFF, 0x1_0000, 0x1_0001, u32::MAX];
    for a in seeds {
        for b in seeds {
            assert_eq!(a == b, domain_offsets(a) == domain_offsets(b));
        }
    }
}

#[test]
fn words_of_the_bounds() {
    assert_eq!(SAMPLE_ONE, 1.0f32.to_bits());
    assert_eq!(QUARTER, 0.25f32.to_bits());
    assert_eq!(THREE_TENTHS, 0.3f32.to_bits());
    assert_eq!(HALF, 0.5f32.to_bits());
    assert_eq!(SIX_TENTHS, 0.6f32.to_bits());
    assert_eq!(THREE_QUARTERS, 0.75f32.to_bits());
    assert_eq!(TREE_THRESHOLD, 0.82f32.to_bits());
}

#[test]
fn samples_lie_between_zero_and_one() {
    assert!(Sample::from_bits(0.0f32.to_bits()).is_some());
    assert!(Sample::from_bits(1.0f32.to_bits()).is_some());
    assert!(Sample::from_bits(1.0f32.to_bits() + 1).is_none());
    assert!(Sample::from_bits((-0.5f32).to_bits()).is_none());
    assert!(Sample::from_bits(f32::NAN.to_bits()).is_none());
}

#[test]
fn samples_compare_like_their_numbers() {
    let numbers = [0.0f32, 1.0e-40, 1.0e-20, 0.1, 0.25, 0.3, 0.5, 0.6, 0.82, 0.999, 1.0];
    for a in numbers {
        for b in numbers {
            assert_eq!(sample(a).exceeds(b.to_bits()), a > b);
            assert_eq!(sample(a).below(b.to_bits()), a < b);
        }
    }
}

#[test]
fn doubling_rounds_down() {
    for (value, expected) in [(0.0f32, 0), (0.25, 0), (0.499_999_97, 0), (0.5, 1), (0.75, 1), (1.0, 2)] {
        assert_eq!(sample(value).double(), expected);
        assert_eq!(sample(value).double(), (value * 2.0) as i32);
    }
}
