//! The threshold matrices and their tiling over an image.

use vstd::prelude::*;

verus! {

/// The side length of the threshold matrix that is tiled over the image.
#[derive(Clone, Copy, Debug, PartialEq, Eq, Structural)]
pub enum BayerMatrixOption {
    M2,
    M4,
    M8,
}

/// The thresholds of the matrix of side 2, row after row.
pub const BAYER_MATRIX_2X2: [u8; 4] = [0, 2, 3, 1];

/// The thresholds of the matrix of side 4, row after row.
pub const BAYER_MATRIX_4X4: [u8; 16] = [
    0, 128, 32, 160, 192, 64, 224, 96, 48, 176, 16, 144, 240, 112, 208, 80,
];

/// The thresholds of the matrix of side 8, row after row.
pub const BAYER_MATRIX_8X8: [u8; 64] = [
    0, 128, 32, 160, 48, 176, 16, 144, 192, 64, 224, 96, 240, 112, 208, 80, 32, 160, 48, 176, 16,
    144, 32, 160, 160, 96, 224, 64, 240, 80, 192, 128, 48, 176, 16, 144, 32, 160, 48, 176, 176,
    224, 96, 64, 240, 80, 192, 128, 16, 144, 32, 160, 48, 176, 16, 144, 144, 80, 208, 128, 192,
    128, 160, 96,
];

impl BayerMatrixOption {
    /// The side length of the matrix: 2, 4 or 8.
    pub open spec fn spec_order(self) -> u32 {
        match self {
            BayerMatrixOption::M2 => 2,
            BayerMatrixOption::M4 => 4,
            BayerMatrixOption::M8 => 8,
        }
    }

    /// The thresholds of the matrix, row after row.
    pub open spec fn thresholds(self) -> Seq<u8> {
        match self {
            BayerMatrixOption::M2 => BAYER_MATRIX_2X2@,
            BayerMatrixOption::M4 => BAYER_MATRIX_4X4@,
            BayerMatrixOption::M8 => BAYER_MATRIX_8X8@,
        }
    }

    /// The matrix holds one threshold for each of its `order * order`
    /// positions.
    pub proof fn lemma_thresholds_len(self)
        ensures
            self.thresholds().len() == self.order() * self.order(),
    {
        match self {
            BayerMatrixOption::M2 => assert(BAYER_MATRIX_2X2@.len() == 2 * 2),
            BayerMatrixOption::M4 => assert(BAYER_MATRIX_4X4@.len() == 4 * 4),
            BayerMatrixOption::M8 => assert(BAYER_MATRIX_8X8@.len() == 8 * 8),
        }
    }

    /// The position in the matrix, counted row after row, that falls on
    /// pixel `(x, y)` when the matrix is tiled over the image: with `order`
    /// the side of the matrix, `(y mod order) * order + (x mod order)`.
    pub open spec fn position(self, x: int, y: int) -> int {
        match self {
            BayerMatrixOption::M2 => tile_index(x, y, 2),
            BayerMatrixOption::M4 => tile_index(x, y, 4),
            BayerMatrixOption::M8 => tile_index(x, y, 8),
        }
    }

    /// The threshold that the tiled matrix puts at pixel `(x, y)`.
    pub open spec fn threshold_at(self, x: int, y: int) -> u8 {
        self.thresholds()[self.position(x, y)]
    }

    /// The side length of the matrix.
    #[verifier::when_used_as_spec(spec_order)]
    pub fn order(self) -> (order: u32)
        ensures
            order == self.spec_order(),
    {
        match self {
            BayerMatrixOption::M2 => 2,
            BayerMatrixOption::M4 => 4,
            BayerMatrixOption::M8 => 8,
        }
    }

    /// The matrix, row after row, and its side length.
    pub fn matrix(self) -> (table: (&'static [u8], u32))
        ensures
            table.0@ == self.thresholds(),
            table.1 == self.order(),
    {
        match self {
            BayerMatrixOption::M2 => (BAYER_MATRIX_2X2.as_slice(), 2),
            BayerMatrixOption::M4 => (BAYER_MATRIX_4X4.as_slice(), 4),
            BayerMatrixOption::M8 => (BAYER_MATRIX_8X8.as_slice(), 8),
        }
    }

    /// The threshold at position `index` of the matrix, counted row after
    /// row.
    pub fn threshold(self, index: usize) -> (threshold: u8)
        requires
            index < self.thresholds().len(),
        ensures
            threshold == self.thresholds()[index as int],
    {
        match self {
            BayerMatrixOption::M2 => BAYER_MATRIX_2X2[index],
            BayerMatrixOption::M4 => BAYER_MATRIX_4X4[index],
            BayerMatrixOption::M8 => BAYER_MATRIX_8X8[index],
        }
    }
}

/// The position in a matrix of side `order`, counted row after row, that
/// falls on pixel `(x, y)` when the matrix is tiled over the image.
pub open spec fn tile_index(x: int, y: int, order: int) -> int {
    (y % order) * order + (x % order)
}

/// Computes the position in the tiled matrix that falls on pixel `(x, y)`.
pub fn threshold_index(x: u32, y: u32, option: BayerMatrixOption) -> (index: usize)
    ensures
        index == option.position(x as int, y as int),
        index < option.thresholds().len(),
{
    let order: u32 = option.order();
    let row: u32 = y % order;
    let column: u32 = x % order;
    (row * order + column) as usize
}

/// Wherever a pixel lies, the tiled matrix has a position for it: with
/// `order` the side of the matrix, the position is
/// `(y mod order) * order + (x mod order)`, and it is one of the
/// `order * order` positions of the matrix.
pub proof fn lemma_position_in_matrix(x: nat, y: nat, option: BayerMatrixOption)
    ensures
        option.position(x as int, y as int) == tile_index(
            x as int,
            y as int,
            option.order() as int,
        ),
        option.position(x as int, y as int) == (y % (option.order() as nat)) * option.order() + (x
            % (option.order() as nat)),
        0 <= option.position(x as int, y as int) < option.order() * option.order(),
        option.position(x as int, y as int) < option.thresholds().len(),
{
    option.lemma_thresholds_len();
}

} // verus!
