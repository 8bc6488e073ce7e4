//! The pixel grid: the mathematical model of a decoded image, and the flips
//! and quarter turns on it.

use vstd::prelude::*;

verus! {

/// A pixel: red, green, blue and alpha, eight bits each.
pub type Rgba = (u8, u8, u8, u8);

/// A grid of pixels, stored row by row from the top.
pub struct PixelGrid {
    pub width: nat,
    pub height: nat,
    pub pixels: Seq<Rgba>,
}

impl PixelGrid {
    /// The grid holds one pixel for each position.
    pub open spec fn well_formed(self) -> bool {
        self.pixels.len() == self.width * self.height
    }

    /// The pixel in column `x` of row `y`.
    pub open spec fn at(self, x: int, y: int) -> Rgba {
        self.pixels[y * self.width + x]
    }

    /// The grid of the given size whose pixel at each position is given by
    /// `pixel`.
    pub open spec fn build(
        width: nat,
        height: nat,
        pixel: spec_fn(int, int) -> Rgba,
    ) -> PixelGrid {
        PixelGrid {
            width,
            height,
            pixels: Seq::new(
                width * height,
                |i: int| pixel(i % (width as int), i / (width as int)),
            ),
        }
    }

    /// Mirror image, left to right.
    pub open spec fn flip_horizontal(self) -> PixelGrid {
        Self::build(self.width, self.height, |x: int, y: int| self.at(self.width - 1 - x, y))
    }

    /// Mirror image, top to bottom.
    pub open spec fn flip_vertical(self) -> PixelGrid {
        Self::build(self.width, self.height, |x: int, y: int| self.at(x, self.height - 1 - y))
    }

    /// Half turn.
    pub open spec fn rotate180(self) -> PixelGrid {
        Self::build(
            self.width,
            self.height,
            |x: int, y: int| self.at(self.width - 1 - x, self.height - 1 - y),
        )
    }

    /// Quarter turn clockwise: the left column becomes the top row.
    pub open spec fn rotate90(self) -> PixelGrid {
        Self::build(self.height, self.width, |x: int, y: int| self.at(y, self.height - 1 - x))
    }

    /// Quarter turn counter-clockwise: the top row becomes the left column.
    pub open spec fn rotate270(self) -> PixelGrid {
        Self::build(self.height, self.width, |x: int, y: int| self.at(self.width - 1 - y, x))
    }
}

/// Position `i` of a grid of `width` columns and `height` rows lies in
/// column `i % width` of row `i / width`.
pub proof fn lemma_position(width: nat, height: nat, i: int)
    requires
        0 <= i < width * height,
    ensures
        width > 0,
        0 <= i % (width as int) < width,
        0 <= i / (width as int) < height,
        i == (i / (width as int)) * width + i % (width as int),
{
    assert(width > 0) by (nonlinear_arith)
        requires
            0 <= i < width * height,
    ;
    let w = (width as int);
    vstd::arithmetic::div_mod::lemma_fundamental_div_mod(i, w);
    vstd::arithmetic::div_mod::lemma_mod_bound(i, w);
    assert(i == w * (i / w) + i % w);
    assert(0 <= i / w < height) by (nonlinear_arith)
        requires
            0 <= i < w * height,
            i == w * (i / w) + i % w,
            0 <= i % w < w,
            w > 0,
    ;
    assert(w * (i / w) == (i / w) * w) by (nonlinear_arith);
}

/// Column `x` of row `y` is position `y * width + x`.
pub proof fn lemma_index(width: nat, height: nat, x: int, y: int)
    requires
        0 <= x < width,
        0 <= y < height,
    ensures
        0 <= y * width + x < width * height,
        (y * width + x) % (width as int) == x,
        (y * width + x) / (width as int) == y,
{
    let w = (width as int);
    assert(0 <= y * w + x < w * height) by (nonlinear_arith)
        requires
            0 <= x < w,
            0 <= y < height,
    ;
    vstd::arithmetic::div_mod::lemma_fundamental_div_mod_converse(y * w + x, w, y, x);
}

/// A built grid is well formed and holds the given pixel at each position.
pub proof fn lemma_build(
    width: nat,
    height: nat,
    pixel: spec_fn(int, int) -> Rgba,
)
    ensures
        PixelGrid::build(width, height, pixel).well_formed(),
        PixelGrid::build(width, height, pixel).width == width,
        PixelGrid::build(width, height, pixel).height == height,
        forall|x: int, y: int|
            0 <= x < width && 0 <= y < height ==> #[trigger] PixelGrid::build(
                width,
                height,
                pixel,
            ).at(x, y) == pixel(x, y),
{
    let g = PixelGrid::build(width, height, pixel);
    assert forall|x: int, y: int| 0 <= x < width && 0 <= y < height implies #[trigger] g.at(x, y)
        == pixel(x, y) by {
        lemma_index(width, height, x, y);
    }
}

/// Two well-formed grids of the same size that agree at every position are
/// the same grid.
pub proof fn lemma_grid_equal(a: PixelGrid, b: PixelGrid)
    requires
        a.well_formed(),
        b.well_formed(),
        a.width == b.width,
        a.height == b.height,
        forall|x: int, y: int|
            0 <= x < a.width && 0 <= y < a.height ==> #[trigger] a.at(x, y) == b.at(x, y),
    ensures
        a == b,
{
    assert forall|i: int| 0 <= i < a.pixels.len() implies a.pixels[i] == b.pixels[i] by {
        lemma_position(a.width, a.height, i);
        let x = i % (a.width as int);
        let y = i / (a.width as int);
        assert(a.at(x, y) == b.at(x, y));
    }
    assert(a.pixels =~= b.pixels);
}

/// Each flip and the half turn undo themselves, and the two quarter turns
/// undo each other.
pub proof fn lemma_turns_and_flips_invert(g: PixelGrid)
    requires
        g.well_formed(),
    ensures
        g.flip_horizontal().flip_horizontal() == g,
        g.flip_vertical().flip_vertical() == g,
        g.rotate180().rotate180() == g,
        g.rotate90().rotate270() == g,
        g.rotate270().rotate90() == g,
{
    let w = g.width;
    let h = g.height;
    let fh = g.flip_horizontal();
    lemma_build(w, h, |x: int, y: int| g.at(w - 1 - x, y));
    lemma_build(w, h, |x: int, y: int| fh.at(w - 1 - x, y));
    lemma_grid_equal(fh.flip_horizontal(), g);

    let fv = g.flip_vertical();
    lemma_build(w, h, |x: int, y: int| g.at(x, h - 1 - y));
    lemma_build(w, h, |x: int, y: int| fv.at(x, h - 1 - y));
    lemma_grid_equal(fv.flip_vertical(), g);

    let half = g.rotate180();
    lemma_build(w, h, |x: int, y: int| g.at(w - 1 - x, h - 1 - y));
    lemma_build(w, h, |x: int, y: int| half.at(w - 1 - x, h - 1 - y));
    lemma_grid_equal(half.rotate180(), g);

    let cw = g.rotate90();
    lemma_build(h, w, |x: int, y: int| g.at(y, h - 1 - x));
    lemma_build(w, h, |x: int, y: int| cw.at(h - 1 - y, x));
    lemma_grid_equal(cw.rotate270(), g);

    let ccw = g.rotate270();
    lemma_build(h, w, |x: int, y: int| g.at(w - 1 - y, x));
    lemma_build(w, h, |x: int, y: int| ccw.at(y, w - 1 - x));
    lemma_grid_equal(ccw.rotate90(), g);
}

} // verus!
