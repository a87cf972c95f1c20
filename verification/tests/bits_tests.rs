use csf_retarget::bits::{clz, next_power_of_two};

#[test]
fn next_power_of_two_of_small_values() {
    assert_eq!(next_power_of_two(0), 1);
    assert_eq!(next_power_of_two(1), 1);
    assert_eq!(next_power_of_two(2), 2);
    assert_eq!(next_power_of_two(3), 4);
    assert_eq!(next_power_of_two(4), 4);
    assert_eq!(next_power_of_two(5), 8);
}

#[test]
fn next_power_of_two_of_frame_dimensions() {
    assert_eq!(next_power_of_two(300), 512);
    assert_eq!(next_power_of_two(500), 512);
    assert_eq!(next_power_of_two(512), 512);
    assert_eq!(next_power_of_two(513), 1024);
    assert_eq!(next_power_of_two(1080), 2048);
    assert_eq!(next_power_of_two(1920), 2048);
}

#[test]
fn next_power_of_two_at_the_upper_end() {
    assert_eq!(next_power_of_two(0x4000_0000), 0x4000_0000);
    assert_eq!(next_power_of_two(0x4000_0001), 0x8000_0000);
    assert_eq!(next_power_of_two(0x7fff_ffff), 0x8000_0000);
    assert_eq!(next_power_of_two(0x8000_0000), 0x8000_0000);
}

#[test]
fn next_power_of_two_agrees_with_the_standard_library() {
    let mut x: u32 = 0;
    while x <= 70_000 {
        assert_eq!(next_power_of_two(x), x.next_power_of_two());
        x += 1;
    }
    for k in 0..31u32 {
        let p = 1u32 << k;
        assert_eq!(next_power_of_two(p), p);
        assert_eq!(next_power_of_two(p + 1), (p + 1).next_power_of_two());
        if p > 2 {
            assert_eq!(next_power_of_two(p - 1), p);
        }
    }
}

#[test]
fn clz_of_every_power_of_two() {
    let expected: [u32; 32] = [
        31, 30, 29, 28, 27, 26, 25, 24, 23, 22, 21, 20, 19, 18, 17, 16, 15, 14, 13, 12, 11, 10, 9,
        8, 7, 6, 5, 4, 3, 2, 1, 0,
    ];
    for k in 0..32u32 {
        assert_eq!(clz(1u32 << k), expected[k as usize]);
    }
}

#[test]
fn clz_of_zero_is_zero() {
    assert_eq!(clz(0), 0);
}

#[test]
fn clz_counts_leading_zeros_of_any_positive_value() {
    let mut x: u32 = 1;
    while x <= 70_000 {
        assert_eq!(clz(x), x.leading_zeros());
        x += 1;
    }
    for k in 1..32u32 {
        let p = 1u32 << k;
        assert_eq!(clz(p - 1), (p - 1).leading_zeros());
        assert_eq!(clz(p + 1), (p + 1).leading_zeros());
    }
    assert_eq!(clz(0x7fff_ffff), 1);
    assert_eq!(clz(0x8000_0000), 0);
    assert_eq!(clz(0x8000_0001), 0);
    assert_eq!(clz(0xffff_ffff), 0);
}

#[test]
fn logarithm_from_the_scan_is_exact() {
    for k in 0..31u32 {
        let p = 1u32 << k;
        assert_eq!(32 - (clz(p) + 1), k);
    }
}
