use bayer_dither::matrix::threshold_index;
use bayer_dither::matrix::BayerMatrixOption;
use bayer_dither::matrix::BAYER_MATRIX_2X2;
use bayer_dither::matrix::BAYER_MATRIX_4X4;
use bayer_dither::matrix::BAYER_MATRIX_8X8;

#[test]
fn orders_are_two_four_and_eight() {
    assert_eq!(BayerMatrixOption::M2.order(), 2);
    assert_eq!(BayerMatrixOption::M4.order(), 4);
    assert_eq!(BayerMatrixOption::M8.order(), 8);
}

#[test]
fn matrices_hold_the_fixed_thresholds() {
    assert_eq!(BAYER_MATRIX_2X2, [0, 2, 3, 1]);
    assert_eq!(
        BAYER_MATRIX_4X4,
        [0, 128, 32, 160, 192, 64, 224, 96, 48, 176, 16, 144, 240, 112, 208, 80]
    );
    assert_eq!(
        BAYER_MATRIX_8X8,
        [
            0, 128, 32, 160, 48, 176, 16, 144, 192, 64, 224, 96, 240, 112, 208, 80, 32, 160, 48,
            176, 16, 144, 32, 160, 160, 96, 224, 64, 240, 80, 192, 128, 48, 176, 16, 144, 32, 160,
            48, 176, 176, 224, 96, 64, 240, 80, 192, 128, 16, 144, 32, 160, 48, 176, 16, 144, 144,
            80, 208, 128, 192, 128, 160, 96
        ]
    );
}

#[test]
fn threshold_is_read_by_position() {
    for (i, expected) in BAYER_MATRIX_2X2.iter().enumerate() {
        assert_eq!(BayerMatrixOption::M2.threshold(i), *expected);
    }
    for (i, expected) in BAYER_MATRIX_4X4.iter().enumerate() {
        assert_eq!(BayerMatrixOption::M4.threshold(i), *expected);
    }
    for (i, expected) in BAYER_MATRIX_8X8.iter().enumerate() {
        assert_eq!(BayerMatrixOption::M8.threshold(i), *expected);
    }
    assert_eq!(BayerMatrixOption::M4.threshold(4), 192);
    assert_eq!(BayerMatrixOption::M8.threshold(63), 96);
}

#[test]
fn threshold_index_is_row_times_order_plus_column() {
    assert_eq!(threshold_index(0, 0, BayerMatrixOption::M2), 0);
    assert_eq!(threshold_index(1, 0, BayerMatrixOption::M2), 1);
    assert_eq!(threshold_index(0, 1, BayerMatrixOption::M2), 2);
    assert_eq!(threshold_index(1, 1, BayerMatrixOption::M2), 3);
    assert_eq!(threshold_index(3, 2, BayerMatrixOption::M4), 11);
    assert_eq!(threshold_index(7, 7, BayerMatrixOption::M8), 63);
    assert_eq!(threshold_index(5, 6, BayerMatrixOption::M8), 53);
}

#[test]
fn threshold_index_tiles_over_the_image() {
    assert_eq!(threshold_index(2, 0, BayerMatrixOption::M2), 0);
    assert_eq!(threshold_index(3, 5, BayerMatrixOption::M2), 3);
    assert_eq!(threshold_index(9, 6, BayerMatrixOption::M4), 9);
    assert_eq!(threshold_index(13, 22, BayerMatrixOption::M8), 53);
    assert_eq!(threshold_index(u32::MAX, u32::MAX, BayerMatrixOption::M2), 3);
    assert_eq!(threshold_index(u32::MAX, u32::MAX, BayerMatrixOption::M4), 15);
    assert_eq!(threshold_index(u32::MAX, u32::MAX, BayerMatrixOption::M8), 63);
}

#[test]
fn threshold_index_follows_the_formula_and_stays_in_the_matrix() {
    for option in [BayerMatrixOption::M2, BayerMatrixOption::M4, BayerMatrixOption::M8] {
        let order = option.order();
        for y in (0..40u32).chain(u32::MAX - 40..=u32::MAX) {
            for x in (0..40u32).chain(u32::MAX - 40..=u32::MAX) {
                let index = threshold_index(x, y, option);
                assert_eq!(index, ((y % order) * order + (x % order)) as usize);
                assert!(index < (order * order) as usize);
            }
        }
    }
}

#[test]
fn matrix_comes_with_its_order() {
    let (table, order) = BayerMatrixOption::M2.matrix();
    assert_eq!((table, order), (&[0u8, 2, 3, 1][..], 2));
    let (table, order) = BayerMatrixOption::M4.matrix();
    assert_eq!((table, order), (&BAYER_MATRIX_4X4[..], 4));
    assert_eq!(table[7], 96);
    let (table, order) = BayerMatrixOption::M8.matrix();
    assert_eq!((table, order), (&BAYER_MATRIX_8X8[..], 8));
    assert_eq!(table.len(), 64);
    assert_eq!(table[12], 240);
}
