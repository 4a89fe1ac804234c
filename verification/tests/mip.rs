use pira_wgpu::pipelines::sky::mip::{full_mip_count, mip_level_extent, Roughness};

#[test]
fn full_mip_count_is_log2_plus_one() {
    assert_eq!(full_mip_count(0), 0);
    assert_eq!(full_mip_count(1), 1);
    assert_eq!(full_mip_count(2), 2);
    assert_eq!(full_mip_count(3), 2);
    assert_eq!(full_mip_count(4), 3);
    assert_eq!(full_mip_count(8), 4);
    assert_eq!(full_mip_count(64), 7);
    assert_eq!(full_mip_count(512), 10);
    assert_eq!(full_mip_count(513), 10);
    assert_eq!(full_mip_count(1023), 10);
    assert_eq!(full_mip_count(1024), 11);
    assert_eq!(full_mip_count(u32::MAX), 32);
}

#[test]
fn mip_extent_halves_and_never_vanishes() {
    assert_eq!(mip_level_extent(512, 0), 512);
    assert_eq!(mip_level_extent(512, 1), 256);
    assert_eq!(mip_level_extent(512, 5), 16);
    assert_eq!(mip_level_extent(512, 9), 1);
    assert_eq!(mip_level_extent(512, 10), 1);
    assert_eq!(mip_level_extent(512, 40), 1);
    assert_eq!(mip_level_extent(7, 1), 3);
    assert_eq!(mip_level_extent(7, 2), 1);
    assert_eq!(mip_level_extent(0, 0), 1);
    assert_eq!(mip_level_extent(u32::MAX, 31), 1);
}

#[test]
fn roughness_schedule_of_six_levels() {
    let expected = [0.0f32, 0.2, 0.4, 0.6, 0.8, 1.0];
    for mip in 0..6u32 {
        let r = Roughness::for_mip(mip, 6).unwrap();
        assert_eq!(r, Roughness { numerator: mip, denominator: 5 });
        assert_eq!(r.numerator as f32 / r.denominator as f32, expected[mip as usize]);
    }
    assert_eq!(Roughness::for_mip(6, 6), None);
    assert_eq!(Roughness::for_mip(0, 0), None);
}

#[test]
fn roughness_of_a_single_level_is_a_mirror() {
    let r = Roughness::for_mip(0, 1).unwrap();
    assert_eq!(r, Roughness { numerator: 0, denominator: 1 });
    assert!(r.is_mirror());
}

#[test]
fn roughness_increases_strictly_with_the_mip_level() {
    for count in 2..12u32 {
        assert!(Roughness::for_mip(0, count).unwrap().is_mirror());
        let last = Roughness::for_mip(count - 1, count).unwrap();
        assert_eq!(last.numerator, last.denominator);
        for mip in 1..count {
            let lower = Roughness::for_mip(mip - 1, count).unwrap();
            let upper = Roughness::for_mip(mip, count).unwrap();
            assert!(lower.is_below(upper));
            assert!(!upper.is_below(lower));
            assert!(!upper.is_below(upper));
        }
    }
}

#[test]
fn roughness_comparison_is_by_value_of_the_fraction() {
    let half = Roughness { numerator: 1, denominator: 2 };
    let two_quarters = Roughness { numerator: 2, denominator: 4 };
    let third = Roughness { numerator: 1, denominator: 3 };
    assert!(!half.is_below(two_quarters));
    assert!(!two_quarters.is_below(half));
    assert!(third.is_below(half));
    let big = Roughness { numerator: u32::MAX - 1, denominator: u32::MAX };
    let one = Roughness { numerator: u32::MAX, denominator: u32::MAX };
    assert!(big.is_below(one));
}
