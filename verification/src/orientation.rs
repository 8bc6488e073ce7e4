//! Orientation correction: the flips and turns that an EXIF orientation
//! code asks for, as an ordered pipeline of discrete steps.

use crate::codec::{
    fliph, flipped_horizontally, flipped_vertically, flipv, image_grid, rotate180, rotate270,
    rotate90, rotated180, rotated270, rotated90,
};
use crate::grid::{lemma_build, lemma_turns_and_flips_invert, PixelGrid};
use vstd::prelude::*;

verus! {

/// One step of an orientation correction.
#[derive(Clone, Copy, Debug, PartialEq, Eq, Structural)]
pub enum Transform {
    Identity,
    FlipHorizontal,
    FlipVertical,
    Rotate90,
    Rotate180,
    Rotate270,
}

impl Transform {
    /// What the step makes of a pixel grid.
    pub open spec fn on_grid(self, g: PixelGrid) -> PixelGrid {
        match self {
            Transform::Identity => g,
            Transform::FlipHorizontal => g.flip_horizontal(),
            Transform::FlipVertical => g.flip_vertical(),
            Transform::Rotate90 => g.rotate90(),
            Transform::Rotate180 => g.rotate180(),
            Transform::Rotate270 => g.rotate270(),
        }
    }

    /// What the step makes of a decoded image.
    pub open spec fn on_image(self, img: image::DynamicImage) -> image::DynamicImage {
        match self {
            Transform::Identity => img,
            Transform::FlipHorizontal => flipped_horizontally(img),
            Transform::FlipVertical => flipped_vertically(img),
            Transform::Rotate90 => rotated90(img),
            Transform::Rotate180 => rotated180(img),
            Transform::Rotate270 => rotated270(img),
        }
    }

    /// The step that undoes this one: the two quarter turns undo each
    /// other, every other step undoes itself.
    pub open spec fn inverse_of(self) -> Transform {
        match self {
            Transform::Rotate90 => Transform::Rotate270,
            Transform::Rotate270 => Transform::Rotate90,
            other => other,
        }
    }

    /// The step that undoes this one.
    pub fn inverse(self) -> (t: Transform)
        ensures
            t == self.inverse_of(),
    {
        match self {
            Transform::Rotate90 => Transform::Rotate270,
            Transform::Rotate270 => Transform::Rotate90,
            other => other,
        }
    }
}

/// The steps that correct an orientation code, in the order in which they
/// are applied. Code 1 and the codes outside `1..=8` ask for the identity.
pub open spec fn transforms_for(code: u16) -> Seq<Transform> {
    if code == 2 {
        seq![Transform::FlipHorizontal]
    } else if code == 3 {
        seq![Transform::Rotate180]
    } else if code == 4 {
        seq![Transform::FlipVertical]
    } else if code == 5 {
        seq![Transform::FlipHorizontal, Transform::Rotate270]
    } else if code == 6 {
        seq![Transform::Rotate90]
    } else if code == 7 {
        seq![Transform::FlipHorizontal, Transform::Rotate90]
    } else if code == 8 {
        seq![Transform::Rotate270]
    } else {
        seq![Transform::Identity]
    }
}

/// The grid after the steps of `ops`, applied first to last.
pub open spec fn grid_after(ops: Seq<Transform>, g: PixelGrid) -> PixelGrid
    decreases ops.len(),
{
    if ops.len() == 0 {
        g
    } else {
        grid_after(ops.drop_first(), ops[0].on_grid(g))
    }
}

/// The image after the steps of `ops`, applied first to last.
pub open spec fn image_after(ops: Seq<Transform>, img: image::DynamicImage) -> image::DynamicImage
    decreases ops.len(),
{
    if ops.len() == 0 {
        img
    } else {
        image_after(ops.drop_first(), ops[0].on_image(img))
    }
}

/// The steps that undo `ops`: the inverse of each step, last to first.
pub open spec fn inverse_sequence(ops: Seq<Transform>) -> Seq<Transform> {
    Seq::new(ops.len(), |i: int| ops[ops.len() - 1 - i].inverse_of())
}

/// The grid of an image corrected for an orientation code.
pub open spec fn oriented_grid(g: PixelGrid, code: u16) -> PixelGrid {
    grid_after(transforms_for(code), g)
}

/// An image corrected for an orientation code.
pub open spec fn oriented(img: image::DynamicImage, code: u16) -> image::DynamicImage {
    image_after(transforms_for(code), img)
}

/// Every step keeps a grid well formed.
pub proof fn lemma_step_well_formed(t: Transform, g: PixelGrid)
    requires
        g.well_formed(),
    ensures
        t.on_grid(g).well_formed(),
{
    let w = g.width;
    let h = g.height;
    lemma_build(w, h, |x: int, y: int| g.at(w - 1 - x, y));
    lemma_build(w, h, |x: int, y: int| g.at(x, h - 1 - y));
    lemma_build(w, h, |x: int, y: int| g.at(w - 1 - x, h - 1 - y));
    lemma_build(h, w, |x: int, y: int| g.at(y, h - 1 - x));
    lemma_build(h, w, |x: int, y: int| g.at(w - 1 - y, x));
}

/// Applying one pipeline after another is applying their concatenation.
pub proof fn lemma_pipeline_concat(a: Seq<Transform>, b: Seq<Transform>, g: PixelGrid)
    ensures
        grid_after(a + b, g) == grid_after(b, grid_after(a, g)),
    decreases a.len(),
{
    if a.len() == 0 {
        assert(a + b == b);
    } else {
        assert((a + b).drop_first() == a.drop_first() + b);
        lemma_pipeline_concat(a.drop_first(), b, a[0].on_grid(g));
    }
}

/// The inverse sequence of a pipeline undoes it: applying the steps and
/// then their inverses, last to first, gives back the grid exactly.
pub proof fn lemma_inverse_sequence_undoes(ops: Seq<Transform>, g: PixelGrid)
    requires
        g.well_formed(),
    ensures
        grid_after(inverse_sequence(ops), grid_after(ops, g)) == g,
    decreases ops.len(),
{
    if ops.len() == 0 {
        assert(inverse_sequence(ops) == Seq::<Transform>::empty());
    } else {
        let first = ops[0];
        let rest = ops.drop_first();
        let stepped = first.on_grid(g);
        lemma_step_well_formed(first, g);
        lemma_inverse_sequence_undoes(rest, stepped);
        let back = seq![first.inverse_of()];
        assert(inverse_sequence(ops) == inverse_sequence(rest) + back);
        lemma_pipeline_concat(inverse_sequence(rest), back, grid_after(rest, stepped));
        assert(grid_after(back, stepped) == first.inverse_of().on_grid(stepped)) by {
            reveal_with_fuel(grid_after, 2);
            assert(back.drop_first().len() == 0);
            assert(back[0] == first.inverse_of());
        }
        lemma_turns_and_flips_invert(g);
    }
}

/// Correcting an orientation and then applying the inverse sequence of the
/// correction gives back the grid as it was, for every code.
pub proof fn lemma_orientation_round_trip(g: PixelGrid, code: u16)
    requires
        g.well_formed(),
    ensures
        grid_after(inverse_sequence(transforms_for(code)), oriented_grid(g, code)) == g,
{
    lemma_inverse_sequence_undoes(transforms_for(code), g);
}

/// Code 5 transposes the image and code 7 transposes it along the other
/// diagonal: width and height change places, and the pixel at `(x, y)`
/// comes from `(y, x)`, or from `(width - 1 - y, height - 1 - x)`.
pub proof fn lemma_mirrored_quarter_turns(g: PixelGrid)
    requires
        g.well_formed(),
    ensures
        oriented_grid(g, 5) == PixelGrid::build(g.height, g.width, |x: int, y: int| g.at(y, x)),
        oriented_grid(g, 7) == PixelGrid::build(
            g.height,
            g.width,
            |x: int, y: int| g.at(g.width - 1 - y, g.height - 1 - x),
        ),
{
    let w = g.width;
    let h = g.height;
    let f = g.flip_horizontal();
    lemma_build(w, h, |x: int, y: int| g.at(w - 1 - x, y));
    lemma_build(h, w, |x: int, y: int| f.at(w - 1 - y, x));
    lemma_build(h, w, |x: int, y: int| f.at(y, h - 1 - x));
    lemma_build(h, w, |x: int, y: int| g.at(y, x));
    lemma_build(h, w, |x: int, y: int| g.at(w - 1 - y, h - 1 - x));
    let five = transforms_for(5);
    let seven = transforms_for(7);
    assert(grid_after(five, g) == f.rotate270()) by {
        assert(five.drop_first() == seq![Transform::Rotate270]);
        assert(five.drop_first().drop_first().len() == 0);
        reveal_with_fuel(grid_after, 3);
    }
    assert(grid_after(seven, g) == f.rotate90()) by {
        assert(seven.drop_first() == seq![Transform::Rotate90]);
        assert(seven.drop_first().drop_first().len() == 0);
        reveal_with_fuel(grid_after, 3);
    }
    crate::grid::lemma_grid_equal(
        f.rotate270(),
        PixelGrid::build(h, w, |x: int, y: int| g.at(y, x)),
    );
    crate::grid::lemma_grid_equal(
        f.rotate90(),
        PixelGrid::build(h, w, |x: int, y: int| g.at(w - 1 - y, h - 1 - x)),
    );
}

/// The steps that correct an orientation code.
pub fn orientation_transforms(code: u16) -> (ops: Vec<Transform>)
    ensures
        ops@ == transforms_for(code),
{
    let mut ops: Vec<Transform> = Vec::new();
    match code {
        2 => ops.push(Transform::FlipHorizontal),
        3 => ops.push(Transform::Rotate180),
        4 => ops.push(Transform::FlipVertical),
        5 => {
            ops.push(Transform::FlipHorizontal);
            ops.push(Transform::Rotate270);
        },
        6 => ops.push(Transform::Rotate90),
        7 => {
            ops.push(Transform::FlipHorizontal);
            ops.push(Transform::Rotate90);
        },
        8 => ops.push(Transform::Rotate270),
        _ => ops.push(Transform::Identity),
    }
    assert(ops@ =~= transforms_for(code));
    ops
}

/// The steps that undo a pipeline.
pub fn inverse_transforms(ops: &Vec<Transform>) -> (undo: Vec<Transform>)
    ensures
        undo@ == inverse_sequence(ops@),
{
    let mut undo: Vec<Transform> = Vec::new();
    let mut i: usize = ops.len();
    while i > 0
        invariant
            i <= ops.len(),
            undo@.len() == ops.len() - i,
            forall|k: int|
                0 <= k < undo@.len() ==> undo@[k] == (#[trigger] ops@[ops.len() - 1
                    - k]).inverse_of(),
        decreases i,
    {
        i -= 1;
        undo.push(ops[i].inverse());
    }
    assert(undo@ =~= inverse_sequence(ops@));
    undo
}

/// Applies one step to an image.
pub fn apply_transform(img: image::DynamicImage, step: Transform) -> (out: image::DynamicImage)
    ensures
        out == step.on_image(img),
        image_grid(out) == step.on_grid(image_grid(img)),
{
    match step {
        Transform::Identity => img,
        Transform::FlipHorizontal => fliph(&img),
        Transform::FlipVertical => flipv(&img),
        Transform::Rotate90 => rotate90(&img),
        Transform::Rotate180 => rotate180(&img),
        Transform::Rotate270 => rotate270(&img),
    }
}

/// Applies the steps of a pipeline to an image, first to last.
pub fn apply_transforms(img: image::DynamicImage, ops: &Vec<Transform>) -> (out:
    image::DynamicImage)
    ensures
        out == image_after(ops@, img),
        image_grid(out) == grid_after(ops@, image_grid(img)),
{
    let ghost start = img;
    let mut current = img;
    let mut i: usize = 0;
    assert(ops@.skip(0) == ops@);
    while i < ops.len()
        invariant
            i <= ops.len(),
            image_after(ops@.skip(i as int), current) == image_after(ops@, start),
            grid_after(ops@.skip(i as int), image_grid(current)) == grid_after(
                ops@,
                image_grid(start),
            ),
        decreases ops.len() - i,
    {
        assert(ops@.skip(i as int)[0] == ops@[i as int]);
        assert(ops@.skip(i as int).drop_first() == ops@.skip(i + 1));
        current = apply_transform(current, ops[i]);
        i += 1;
    }
    current
}

/// Corrects an image for its EXIF orientation code: code 2 mirrors it left
/// to right, 3 turns it half round, 4 mirrors it top to bottom, 5 mirrors
/// it left to right and then turns it a quarter turn counter-clockwise, 6
/// turns it a quarter turn clockwise, 7 mirrors it left to right and then
/// turns it a quarter turn clockwise, 8 turns it a quarter turn
/// counter-clockwise. Code 1 and every other value leave it as it is.
pub fn apply_orientation(img: image::DynamicImage, orientation: u16) -> (out: image::DynamicImage)
    ensures
        out == oriented(img, orientation),
        image_grid(out) == oriented_grid(image_grid(img), orientation),
{
    let ops = orientation_transforms(orientation);
    apply_transforms(img, &ops)
}

} // verus!
