use std::cell::Cell;

use polyeval::{estrin, estrin_fma, horner, horner_array, horner_fma, mul_add};

fn all_four(x: i64, c: &[i64]) -> [i64; 4] {
    [horner(x, c), horner_fma(x, c), estrin(x, c), estrin_fma(x, c)]
}

#[test]
fn strategies_agree_on_small_polynomials() {
    let coeffs: [i64; 9] = [3, -1, 4, -1, 5, -9, 2, -6, 5];
    for n in 1..=coeffs.len() {
        for x in -6..=6 {
            let c = &coeffs[..n];
            let expected = horner(x, c);
            assert_eq!(all_four(x, c), [expected; 4]);
        }
    }
}

#[test]
fn empty_list_gives_zero() {
    for x in [-5, 0, 7, i64::MAX, i64::MIN] {
        assert_eq!(horner(x, &[]), 0);
        assert_eq!(horner_array::<0>(x, &[]), 0);
    }
}

#[test]
fn single_coefficient_is_returned() {
    for x in [-3, 0, 7, i64::MAX] {
        for c in [i64::MIN, -1, 0, 42, i64::MAX] {
            assert_eq!(all_four(x, &[c]), [c; 4]);
        }
    }
}

#[test]
fn two_coefficients_are_a_plus_x_b() {
    for x in -4..=4 {
        for (a, b) in [(0, 0), (1, 2), (-7, 3), (5, -11)] {
            assert_eq!(all_four(x, &[a, b]), [a + x * b; 4]);
        }
    }
}

#[test]
fn degree_two_at_seven() {
    assert_eq!(all_four(7, &[2, 3, 4]), [219; 4]);
}

#[test]
fn degree_four_at_seven() {
    assert_eq!(all_four(7, &[1, 2, 3, 4, 5]), [13539; 4]);
}

#[test]
fn estrin_rounds_with_odd_and_even_lengths() {
    // 1 + 2x + 3x^2 + ... + 8x^7 at x = 2, and the same without the top term
    assert_eq!(estrin(2, &[1, 2, 3, 4, 5, 6, 7, 8]), 1793);
    assert_eq!(estrin_fma(2, &[1, 2, 3, 4, 5, 6, 7, 8]), 1793);
    assert_eq!(estrin(2, &[1, 2, 3, 4, 5, 6, 7]), 769);
    assert_eq!(estrin_fma(2, &[1, 2, 3, 4, 5, 6, 7]), 769);
    assert_eq!(horner(2, &[1, 2, 3, 4, 5, 6, 7, 8]), 1793);
    assert_eq!(horner_fma(2, &[1, 2, 3, 4, 5, 6, 7]), 769);
}

#[test]
fn negative_point_and_coefficients() {
    // 5 - 4x + 3x^2 - 2x^3 at x = -3
    assert_eq!(all_four(-3, &[5, -4, 3, -2]), [98; 4]);
}

#[test]
fn results_at_the_edge_of_the_range() {
    assert_eq!(all_four(2, &[i64::MAX - 2, 1]), [i64::MAX; 4]);
    assert_eq!(all_four(-1, &[i64::MIN + 1, 1]), [i64::MIN; 4]);
    assert_eq!(horner(1 << 31, &[0, 0, 1]), 1 << 62);
    assert_eq!(estrin(1 << 31, &[0, 0, 1]), 1 << 62);
}

#[test]
fn array_length_is_part_of_the_type() {
    assert_eq!(horner_array::<3>(7, &[2, 3, 4]), 219);
    assert_eq!(horner_array::<1>(7, &[-4]), -4);
}

#[test]
fn fused_multiply_add_values() {
    assert_eq!(mul_add(3, 4, 5), 17);
    assert_eq!(mul_add(-6, 7, 2), -40);
    assert_eq!(mul_add(0, 9, -1), -1);
}

#[test]
fn point_expression_is_evaluated_once() {
    let count = Cell::new(0);
    let point = || {
        count.set(count.get() + 1);
        7
    };
    assert_eq!(horner(point(), &[2, 3, 4]), 219);
    assert_eq!(count.get(), 1);
    assert_eq!(horner_fma(point(), &[1, 2, 3, 4, 5]), 13539);
    assert_eq!(count.get(), 2);
    assert_eq!(estrin(point(), &[1, 2, 3, 4, 5]), 13539);
    assert_eq!(count.get(), 3);
    assert_eq!(estrin_fma(point(), &[2, 3, 4]), 219);
    assert_eq!(count.get(), 4);
}
