use raytracer::arith::{integer_sqrt, magnitude_of};

#[test]
fn magnitudes() {
    assert_eq!(magnitude_of(0), 0);
    assert_eq!(magnitude_of(5), 5);
    assert_eq!(magnitude_of(-5), 5);
    assert_eq!(magnitude_of(i64::MIN), 1u128 << 63);
    assert_eq!(magnitude_of(i64::MAX), (1u128 << 63) - 1);
}

#[test]
fn integer_roots_of_small_numbers() {
    assert_eq!(integer_sqrt(0), 0);
    assert_eq!(integer_sqrt(1), 1);
    assert_eq!(integer_sqrt(2), 1);
    assert_eq!(integer_sqrt(3), 1);
    assert_eq!(integer_sqrt(4), 2);
    assert_eq!(integer_sqrt(15), 3);
    assert_eq!(integer_sqrt(16), 4);
    assert_eq!(integer_sqrt(17), 4);
    assert_eq!(integer_sqrt(99), 9);
    assert_eq!(integer_sqrt(100), 10);
}

#[test]
fn integer_roots_at_the_limits() {
    assert_eq!(integer_sqrt(u128::MAX), u64::MAX);
    assert_eq!(integer_sqrt((u64::MAX as u128) * (u64::MAX as u128)), u64::MAX);
    assert_eq!(integer_sqrt((u64::MAX as u128) * (u64::MAX as u128) - 1), u64::MAX - 1);
    assert_eq!(integer_sqrt(1u128 << 126), 1u64 << 63);
    assert_eq!(integer_sqrt((1u128 << 126) - 1), (1u64 << 63) - 1);
}

#[test]
fn integer_root_squares_bracket_the_number() {
    let samples: [u128; 6] = [7, 1_000_003, 1 << 64, (1 << 64) + 12_345, 3 << 100, u128::MAX / 3];
    for n in samples {
        let r = integer_sqrt(n) as u128;
        assert!(r * r <= n);
        assert!(n - r * r <= 2 * r);
    }
}
