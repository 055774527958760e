use rbrt_core::spherical::sh_index;
use rbrt_core::spherical::sh_terms;

#[test]
fn sh_terms_counts_coefficients_per_band() {
    assert_eq!(sh_terms(0), 1);
    assert_eq!(sh_terms(1), 4);
    assert_eq!(sh_terms(2), 9);
    assert_eq!(sh_terms(4), 25);
}

#[test]
fn sh_index_walks_bands_in_order() {
    assert_eq!(sh_index(0, 0), 0);
    assert_eq!(sh_index(1, -1), 1);
    assert_eq!(sh_index(1, 0), 2);
    assert_eq!(sh_index(1, 1), 3);
    assert_eq!(sh_index(2, -2), 4);
    assert_eq!(sh_index(2, 0), 6);
    assert_eq!(sh_index(2, 2), 8);
}

#[test]
fn sh_index_band_start_is_square() {
    for l in 0..8 {
        assert_eq!(sh_index(l, -l), (l * l) as usize);
        assert_eq!(sh_index(l, l) + 1, sh_terms(l));
    }
}
