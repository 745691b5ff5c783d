//! Checks the bit-level core against real `f32` semantics: the sign-bit
//! operations against float negation and absolute value, the reciprocal
//! square root seed against the refined iteration's accuracy, and the
//! sorting network against a column-by-column float replay.

use svd3::bits;
use svd3::givens::Givens;
use svd3::jacobi::{self, Symmetric3x3};
use svd3::mat3::Mat3;
use svd3::quat::IndexedQuat;
use svd3::sort;

const SAMPLES: [f32; 10] = [
    0.0,
    -0.0,
    1.0,
    -1.0,
    1.5,
    -3.25,
    3.25e-10,
    f32::MAX,
    f32::MIN_POSITIVE,
    f32::INFINITY,
];

#[test]
fn negate_bits_matches_float_negation() {
    for &x in SAMPLES.iter() {
        assert_eq!(bits::negate_bits(x.to_bits()), (-x).to_bits());
    }
}

#[test]
fn abs_bits_matches_float_abs() {
    for &x in SAMPLES.iter() {
        assert_eq!(bits::abs_bits(x.to_bits()), x.abs().to_bits());
    }
}

#[test]
fn negate_bits_twice_is_identity() {
    for &x in SAMPLES.iter() {
        let b = x.to_bits();
        assert_eq!(bits::negate_bits(bits::negate_bits(b)), b);
    }
}

#[test]
fn rsqrt_seed_values() {
    assert_eq!(bits::rsqrt_seed(1.0f32.to_bits()), 0x3f77_5a82);
    assert_eq!(bits::rsqrt1_seed(1.0f32.to_bits()), 0x3f77_599e);
    for &x in [0.25f32, 1.0, 2.0, 100.0, 1.0e-6].iter() {
        let b = x.to_bits();
        assert_eq!(bits::rsqrt_seed(b), 0x5f37_5a82u32 - (b >> 1));
        assert_eq!(bits::rsqrt1_seed(b), 0x5f37_599eu32 - (b >> 1));
    }
}

/// Runs the given number of Newton-Raphson passes on a seed bit pattern,
/// exactly as the floating-point routine does after seeding.
fn refine(x_in: f32, seed: u32, passes: u32) -> f32 {
    let xhalf = -0.5 * x_in;
    let mut x = f32::from_bits(seed);
    for _ in 0..passes {
        x = x * (x * x * xhalf + 1.5);
    }
    x
}

#[test]
fn reciprocal_sqrt_accuracy() {
    for &x in [0.25f32, 0.7, 1.0, 2.0, 3.0, 100.0, 12345.678].iter() {
        let exact = 1.0 / x.sqrt();
        let fast = refine(x, bits::rsqrt_seed(x.to_bits()), bits::RSQRT_STEPS);
        let precise = refine(x, bits::rsqrt1_seed(x.to_bits()), bits::RSQRT1_STEPS);
        let fast_err = ((fast - exact) / exact).abs();
        let precise_err = ((precise - exact) / exact).abs();
        assert!(fast_err < 1.0e-4, "fast variant off by {} at {}", fast_err, x);
        assert!(
            precise_err <= fast_err + f32::EPSILON,
            "six passes should not be less accurate than four at {}",
            x
        );
    }
}

#[test]
fn quaternion_accessor_roundtrip() {
    let mut q = IndexedQuat::identity();
    assert_eq!(q.get(0), 0);
    assert_eq!(q.get(1), 0);
    assert_eq!(q.get(2), 0);
    assert_eq!(q.get(3), 1.0f32.to_bits());
    for i in 0..4 {
        q.set(i, 0xdead_0000 + i as u32);
    }
    for i in 0..4 {
        assert_eq!(q.get(i), 0xdead_0000 + i as u32);
    }
    let q2 = IndexedQuat::new(1, 2, 3, 4);
    assert_eq!((q2.x, q2.y, q2.z, q2.w), (1, 2, 3, 4));
}

#[test]
fn givens_fallback_constants() {
    let g = Givens::default();
    let ch = f32::from_bits(g.ch);
    let sh = f32::from_bits(g.sh);
    assert_eq!(ch, 0.923_879_532_f32);
    assert_eq!(sh, 0.382_683_432_3_f32);
    // A proper rotation, nowhere near degenerate: unit length within float
    // tolerance, both components well away from zero.
    assert!((ch * ch + sh * sh - 1.0).abs() < 1.0e-6);
    assert!(ch.is_finite() && sh.is_finite());
    assert!(!ch.is_nan() && !sh.is_nan());
    let h = Givens::new(7, 9);
    assert_eq!((h.ch, h.sh), (7, 9));
}

fn mat_from_f32(m: [[f32; 3]; 3]) -> Mat3 {
    Mat3::new(
        m[0][0].to_bits(),
        m[0][1].to_bits(),
        m[0][2].to_bits(),
        m[1][0].to_bits(),
        m[1][1].to_bits(),
        m[1][2].to_bits(),
        m[2][0].to_bits(),
        m[2][1].to_bits(),
        m[2][2].to_bits(),
    )
}

fn mat_to_f32(m: &Mat3) -> [[f32; 3]; 3] {
    [
        [
            f32::from_bits(m.m_00),
            f32::from_bits(m.m_01),
            f32::from_bits(m.m_02),
        ],
        [
            f32::from_bits(m.m_10),
            f32::from_bits(m.m_11),
            f32::from_bits(m.m_12),
        ],
        [
            f32::from_bits(m.m_20),
            f32::from_bits(m.m_21),
            f32::from_bits(m.m_22),
        ],
    ]
}

/// The sorting network replayed directly on floats, column by column.
fn float_sort(b: &mut [[f32; 3]; 3], v: &mut [[f32; 3]; 3], mut rho: [f32; 3]) {
    let pairs = [(0usize, 1usize), (0, 2), (1, 2)];
    for &(i, j) in pairs.iter() {
        if rho[i] < rho[j] {
            for row in 0..3 {
                let z = -b[row][i];
                b[row][i] = b[row][j];
                b[row][j] = z;
                let z = -v[row][i];
                v[row][i] = v[row][j];
                v[row][j] = z;
            }
            rho.swap(i, j);
        }
    }
}

#[test]
fn sort_matches_float_replay_bit_for_bit() {
    let b_f = [[1.0f32, 0.0, 0.5], [0.25, 2.0, 0.0], [0.0, -1.0, 3.0]];
    let v_f = [[0.9f32, 0.1, 0.0], [-0.1, 0.9, 0.2], [0.0, -0.2, 1.0]];
    let rho = [
        1.0f32 * 1.0 + 0.25 * 0.25,
        2.0 * 2.0 + 1.0,
        0.5 * 0.5 + 9.0,
    ];

    let mut b = mat_from_f32(b_f);
    let mut v = mat_from_f32(v_f);
    sort::sort_singular_values(
        &mut b,
        &mut v,
        rho[0].to_bits(),
        rho[1].to_bits(),
        rho[2].to_bits(),
    );

    let mut b_expect = b_f;
    let mut v_expect = v_f;
    float_sort(&mut b_expect, &mut v_expect, rho);
    assert_eq!(b, mat_from_f32(b_expect));
    assert_eq!(v, mat_from_f32(v_expect));
}

#[test]
fn sort_diagonal_descending() {
    // Working matrix diag(1, 2, 3): column norms 1, 4, 9, so the columns
    // must come out in reverse order, with descending norms.
    let diag = [[1.0f32, 0.0, 0.0], [0.0, 2.0, 0.0], [0.0, 0.0, 3.0]];
    let eye = [[1.0f32, 0.0, 0.0], [0.0, 1.0, 0.0], [0.0, 0.0, 1.0]];
    let mut b = mat_from_f32(diag);
    let mut v = mat_from_f32(eye);
    sort::sort_singular_values(
        &mut b,
        &mut v,
        1.0f32.to_bits(),
        4.0f32.to_bits(),
        9.0f32.to_bits(),
    );
    let out = mat_to_f32(&b);
    let norms: Vec<f32> = (0..3)
        .map(|c| (0..3).map(|r| out[r][c] * out[r][c]).sum())
        .collect();
    assert!(norms[0] >= norms[1] && norms[1] >= norms[2]);
    assert_eq!([norms[0], norms[1], norms[2]], [9.0, 4.0, 1.0]);
    // Each output column is a signed unit vector: V stays a signed
    // permutation, so it stays orthogonal.
    let v_out = mat_to_f32(&v);
    for c in 0..3 {
        let n: f32 = (0..3).map(|r| v_out[r][c] * v_out[r][c]).sum();
        assert_eq!(n, 1.0);
    }
}

#[test]
fn sort_with_equal_keys_leaves_everything_in_place() {
    // The comparisons are strict, so an already sorted or tied key triple
    // performs no swap at all and the matrices come back bit-identical.
    let eye = [[1.0f32, 0.0, 0.0], [0.0, 1.0, 0.0], [0.0, 0.0, 1.0]];
    let mut b = mat_from_f32(eye);
    let mut v = mat_from_f32(eye);
    let one = 1.0f32.to_bits();
    sort::sort_singular_values(&mut b, &mut v, one, one, one);
    assert_eq!(b, mat_from_f32(eye));
    assert_eq!(v, mat_from_f32(eye));

    // Keys already descending: also a fixed point.
    sort::sort_singular_values(
        &mut b,
        &mut v,
        9.0f32.to_bits(),
        4.0f32.to_bits(),
        1.0f32.to_bits(),
    );
    assert_eq!(b, mat_from_f32(eye));
    assert_eq!(v, mat_from_f32(eye));
}

#[test]
fn sort_is_deterministic() {
    let b_f = [[0.3f32, -2.0, 0.5], [1.25, 2.0, -0.75], [0.0, -1.0, 3.5]];
    let v_f = [[0.5f32, 0.5, 0.0], [-0.5, 0.5, 0.5], [0.5, -0.5, 1.0]];
    let keys = [7.5f32.to_bits(), 2.25f32.to_bits(), 13.0f32.to_bits()];
    let mut b1 = mat_from_f32(b_f);
    let mut v1 = mat_from_f32(v_f);
    let mut b2 = mat_from_f32(b_f);
    let mut v2 = mat_from_f32(v_f);
    sort::sort_singular_values(&mut b1, &mut v1, keys[0], keys[1], keys[2]);
    sort::sort_singular_values(&mut b2, &mut v2, keys[0], keys[1], keys[2]);
    assert_eq!(b1, b2);
    assert_eq!(v1, v2);
}

#[test]
fn cond_swap_behaviour() {
    let mut x = 5u32;
    let mut y = 9u32;
    sort::cond_swap(false, &mut x, &mut y);
    assert_eq!((x, y), (5, 9));
    sort::cond_swap(true, &mut x, &mut y);
    assert_eq!((x, y), (9, 5));
}

#[test]
fn cond_neg_swap_behaviour() {
    let a = 2.5f32;
    let b = -7.0f32;
    let mut x = a.to_bits();
    let mut y = b.to_bits();
    sort::cond_neg_swap(false, &mut x, &mut y);
    assert_eq!((x, y), (a.to_bits(), b.to_bits()));
    sort::cond_neg_swap(true, &mut x, &mut y);
    assert_eq!(f32::from_bits(x), b);
    assert_eq!(f32::from_bits(y), -a);
}

#[test]
fn symmetric_packing_reads_the_documented_entries() {
    let m = Mat3::new(11, 12, 13, 21, 22, 23, 31, 32, 33);
    let s = Symmetric3x3::from_mat3x3(&m);
    assert_eq!(s.m_00, 11);
    assert_eq!(s.m_10, 12); // read from the upper triangle
    assert_eq!(s.m_11, 22);
    assert_eq!(s.m_20, 31);
    assert_eq!(s.m_21, 32);
    assert_eq!(s.m_22, 33);

    let t = Symmetric3x3::new(1, 2, 3, 4, 5, 6);
    assert_eq!(
        (t.m_00, t.m_10, t.m_11, t.m_20, t.m_21, t.m_22),
        (1, 2, 3, 4, 5, 6)
    );
}

#[test]
fn cycle_has_period_three() {
    let start = Symmetric3x3::new(1, 2, 3, 4, 5, 6);
    let mut s = start;
    s.cycle();
    assert_eq!(
        (s.m_00, s.m_10, s.m_11, s.m_20, s.m_21, s.m_22),
        (3, 5, 6, 2, 4, 1)
    );
    s.cycle();
    s.cycle();
    assert_eq!(s, start);
}

#[test]
fn sweep_schedule() {
    assert_eq!(jacobi::JACOBI_STEPS, 12);
    assert_eq!(jacobi::axis_triple(0), (0, 1, 2));
    assert_eq!(jacobi::axis_triple(1), (1, 2, 0));
    assert_eq!(jacobi::axis_triple(2), (2, 0, 1));
}
