use rand::rngs::StdRng;
use rand::{Rng, SeedableRng};
use raytrace::color::channel_byte;
use raytrace::interval::interval;
use raytrace::scalar::Scalar;
use raytrace::sphere::Roots;

fn s(x: f64) -> Scalar {
    Scalar::from_bits(x.to_bits())
}

fn draw(rng: &mut StdRng) -> f64 {
    let sign: u64 = if rng.gen::<bool>() { 1 << 63 } else { 0 };
    let exponent: u64 = match rng.gen_range(0..6) {
        0 => rng.gen_range(0..2048),
        1 => rng.gen_range(1023 - 70..1023 + 70),
        2 => rng.gen_range(1023 - 12..1023 + 2),
        3 => 0,
        4 => 2047,
        _ => rng.gen_range(1023 + 50..1023 + 66),
    };
    let fraction: u64 = match rng.gen_range(0..4) {
        0 => 0,
        1 => (1 << 52) - 1,
        2 => 1 << rng.gen_range(0..52),
        _ => rng.gen::<u64>() >> 12,
    };
    f64::from_bits(sign | (exponent << 52) | fraction)
}

#[test]
fn random_order_agrees_with_hardware() {
    let mut rng = StdRng::seed_from_u64(1);
    for _ in 0..200000 {
        let a = draw(&mut rng);
        let b = if rng.gen_range(0..8) == 0 { a } else { draw(&mut rng) };
        assert_eq!(s(a).lt(s(b)), a < b, "{:e} < {:e}", a, b);
        assert_eq!(s(a).le(s(b)), a <= b, "{:e} <= {:e}", a, b);
        assert_eq!(s(a).gt(s(b)), a > b, "{:e} > {:e}", a, b);
        assert_eq!(s(a).ge(s(b)), a >= b, "{:e} >= {:e}", a, b);
        assert_eq!(s(a) == s(b), a == b, "{:e} == {:e}", a, b);
        assert_eq!(s(a).neg().to_bits(), (-a).to_bits());
        assert_eq!(s(a).abs().to_bits(), a.abs().to_bits());
        assert_eq!(s(a).is_nan(), a.is_nan());
    }
}

#[test]
fn random_whole_numbers_agree_with_hardware() {
    let mut rng = StdRng::seed_from_u64(2);
    for _ in 0..200000 {
        let a = draw(&mut rng);
        assert_eq!(s(a).to_u64_scaled(0), a as u64, "{:e}", a);
        assert_eq!(s(a).to_u64_scaled(1), (a * 2.0) as u64, "2 * {:e}", a);
        assert_eq!(s(a).to_u64_scaled(8), (a * 256.0) as u64, "256 * {:e}", a);
        assert_eq!(s(a).to_u64_scaled(40), (a * 1099511627776.0) as u64, "2^40 * {:e}", a);
        assert_eq!(s(a).round_to_u64(), a.round() as u64, "round {:e}", a);
    }
}

#[test]
fn random_intervals_agree_with_hardware() {
    let mut rng = StdRng::seed_from_u64(3);
    for _ in 0..100000 {
        let min = draw(&mut rng);
        let max = draw(&mut rng);
        let x = match rng.gen_range(0..4) {
            0 => min,
            1 => max,
            _ => draw(&mut rng),
        };
        let iv = interval(s(min), s(max));
        assert_eq!(iv.contains(s(x)), min <= x && x <= max);
        assert_eq!(iv.surrounds(s(x)), min < x && x < max);
        let expected = if x < min {
            min
        } else if x > max {
            max
        } else {
            x
        };
        let c = iv.clamp(s(x));
        assert_eq!(c.to_bits(), expected.to_bits());
        if min <= max && !x.is_nan() {
            assert!(iv.contains(c));
        }
    }
}

#[test]
fn random_bytes_agree_with_hardware() {
    let mut rng = StdRng::seed_from_u64(4);
    for n in 0..200000 {
        let g = if n % 2 == 0 { draw(&mut rng) } else { rng.gen::<f64>() * 1.01 };
        let clamped = if g < 0.0 {
            0.0
        } else if g > 0.999 {
            0.999
        } else {
            g
        };
        assert_eq!(channel_byte(s(g)) as i32, (256.0 * clamped) as i32, "{:e}", g);
    }
}

#[test]
fn random_root_selection_agrees_with_hardware() {
    let mut rng = StdRng::seed_from_u64(5);
    for _ in 0..100000 {
        let d = draw(&mut rng);
        let near = draw(&mut rng);
        let far = draw(&mut rng);
        let lo = draw(&mut rng);
        let hi = draw(&mut rng);
        let expected = if d < 0.0 {
            None
        } else if lo < near && near < hi {
            Some(near.to_bits())
        } else if lo < far && far < hi {
            Some(far.to_bits())
        } else {
            None
        };
        let roots = Roots { discriminant: s(d), near: s(near), far: s(far) };
        assert_eq!(roots.select(interval(s(lo), s(hi))).map(|t| t.to_bits()), expected);
    }
}
