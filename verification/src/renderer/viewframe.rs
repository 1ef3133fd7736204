//! The image plane in world space.
use crate::arith::{lemma_division, lemma_product_magnitude, magnitude};
use crate::geometry::point::Point;
use crate::scalar::{from_wide, lemma_mul_zero, lemma_quot_exact, Scalar, ONE, TWO};
use vstd::prelude::*;

verus! {

/// A rectangle of the given width and height, centred at `origin` and
/// facing along the z axis, onto which the image is projected.
#[derive(Clone, Copy, Debug, PartialEq, Eq, Structural)]
pub struct ViewFrame {
    pub origin: Point,
    pub width: Scalar,
    pub height: Scalar,
}

/// Where index `index` of `count` equal steps lies on a side of length
/// `extent` centred at `center`: `center - extent / 2 + index * (extent / count)`.
pub open spec fn interpolate_spec(center: Scalar, extent: Scalar, index: int, count: int) -> Scalar {
    center.sub_spec(extent.div_spec(Scalar::Finite(TWO))).add_spec(
        from_wide(index * ONE).mul_spec(extent.div_spec(from_wide(count * ONE))),
    )
}

impl ViewFrame {
    /// The world point of a pixel: the frame's corner of least x and y for
    /// pixel `(0, 0)`, and one step of `width / image_width` or
    /// `height / image_height` further for each pixel after it.
    pub open spec fn point_on_pixel_spec(
        self,
        x: int,
        y: int,
        image_width: int,
        image_height: int,
    ) -> Point {
        Point {
            x: interpolate_spec(self.origin.x, self.width, x, image_width),
            y: interpolate_spec(self.origin.y, self.height, y, image_height),
            z: self.origin.z,
        }
    }

    /// The frame's corner of least x and y.
    pub open spec fn corner_spec(self) -> Point {
        Point {
            x: self.origin.x.sub_spec(self.width.div_spec(Scalar::Finite(TWO))),
            y: self.origin.y.sub_spec(self.height.div_spec(Scalar::Finite(TWO))),
            z: self.origin.z,
        }
    }

    /// The frame of the given size about `origin`.
    pub fn new(origin: Point, width: Scalar, height: Scalar) -> (r: ViewFrame)
        ensures
            r == (ViewFrame { origin, width, height }),
    {
        ViewFrame { origin, width, height }
    }

    /// The world point of a pixel of an image of the given size.
    pub fn point_on_pixel(
        &self,
        x: usize,
        y: usize,
        image_width: usize,
        image_height: usize,
    ) -> (r: Point)
        ensures
            r == self.point_on_pixel_spec(
                x as int,
                y as int,
                image_width as int,
                image_height as int,
            ),
    {
        let x_factor: Scalar = self.width.div(Scalar::from_usize(image_width));
        let y_factor: Scalar = self.height.div(Scalar::from_usize(image_height));
        let x_offset: Scalar = Scalar::from_usize(x).mul(x_factor);
        let y_offset: Scalar = Scalar::from_usize(y).mul(y_factor);
        Point::new(
            self.origin.x.sub(self.width.div(Scalar::Finite(TWO))).add(x_offset),
            self.origin.y.sub(self.height.div(Scalar::Finite(TWO))).add(y_offset),
            self.origin.z,
        )
    }
}

/// A number divided by a whole number of at least one is a number.
pub proof fn lemma_step_is_finite(extent: Scalar, count: int)
    requires
        extent is Finite,
        0 < count <= 0x7fff_ffff,
    ensures
        extent.div_spec(from_wide(count * ONE)) is Finite,
{
    let size = magnitude(extent.raw() * ONE);
    let divisor = count * ONE;
    lemma_product_magnitude(extent.raw(), ONE as int);
    assert(0 <= size / divisor <= magnitude(extent.raw())) by (nonlinear_arith)
        requires
            size == magnitude(extent.raw()) * ONE,
            divisor == count * ONE,
            0 < count,
            0 <= magnitude(extent.raw()),
            ONE == 0x1_0000_0000,
    ;
}

/// The first step of a side lies at its lower end.
pub proof fn lemma_first_step(center: Scalar, extent: Scalar, count: int)
    requires
        extent is Finite,
        0 < count <= 0x7fff_ffff,
    ensures
        interpolate_spec(center, extent, 0, count) == center.sub_spec(
            extent.div_spec(Scalar::Finite(TWO)),
        ),
{
    lemma_step_is_finite(extent, count);
    lemma_mul_zero(extent.div_spec(from_wide(count * ONE)));
}

/// Along a side that does not run backward and whose lower end is a
/// number, a later step never lies before an earlier one, and it lies
/// after it where the steps have a length and the later one is a number.
pub proof fn lemma_steps_grow(center: Scalar, extent: Scalar, count: int, earlier: int, later: int)
    requires
        extent is Finite,
        0 <= extent.raw(),
        center.sub_spec(extent.div_spec(Scalar::Finite(TWO))) is Finite,
        0 < count <= 0x7fff_ffff,
        0 <= earlier <= later <= 0x7fff_ffff,
    ensures
        interpolate_spec(center, extent, earlier, count).le_spec(
            interpolate_spec(center, extent, later, count),
        ),
        earlier < later && extent.div_spec(from_wide(count * ONE)) != Scalar::Finite(0)
            && interpolate_spec(center, extent, later, count) is Finite ==> interpolate_spec(
            center,
            extent,
            earlier,
            count,
        ).lt_spec(interpolate_spec(center, extent, later, count)),
{
    lemma_step_is_finite(extent, count);
    let step = extent.div_spec(from_wide(count * ONE));
    let s = step.raw();
    lemma_product_magnitude(extent.raw(), ONE as int);
    assert(0 <= s) by {
        lemma_division(magnitude(extent.raw() * ONE), count * ONE);
    }
    assert(earlier * ONE * s == (earlier * s) * ONE && later * ONE * s == (later * s) * ONE)
        by (nonlinear_arith);
    lemma_quot_exact(earlier * s, ONE as int);
    lemma_quot_exact(later * s, ONE as int);
    assert(earlier * s <= later * s && (earlier < later && 0 < s ==> earlier * s < later * s))
        by (nonlinear_arith)
        requires
            0 <= earlier <= later,
            0 <= s,
    ;
}

/// The world point of a pixel lies further along x the further right its
/// column is, and further along y the further down its row, for every
/// frame whose width and height are numbers not below zero and whose
/// corner is a point of numbers.
pub proof fn law_pixels_keep_their_order(
    frame: ViewFrame,
    image_width: int,
    image_height: int,
    x1: int,
    y1: int,
    x2: int,
    y2: int,
)
    requires
        frame.width is Finite && 0 <= frame.width.raw(),
        frame.height is Finite && 0 <= frame.height.raw(),
        frame.corner_spec().x is Finite,
        frame.corner_spec().y is Finite,
        0 < image_width <= 0x7fff_ffff,
        0 < image_height <= 0x7fff_ffff,
        0 <= x1 <= x2 <= 0x7fff_ffff,
        0 <= y1 <= y2 <= 0x7fff_ffff,
    ensures
        frame.point_on_pixel_spec(x1, y1, image_width, image_height).x.le_spec(
            frame.point_on_pixel_spec(x2, y2, image_width, image_height).x,
        ),
        frame.point_on_pixel_spec(x1, y1, image_width, image_height).y.le_spec(
            frame.point_on_pixel_spec(x2, y2, image_width, image_height).y,
        ),
{
    lemma_steps_grow(frame.origin.x, frame.width, image_width, x1, x2);
    lemma_steps_grow(frame.origin.y, frame.height, image_height, y1, y2);
}

/// The first pixel of an image maps to the frame's corner of least x and
/// y, for every frame whose width and height are numbers and every image
/// of at least one pixel whose sizes are scalars.
pub proof fn law_first_pixel_is_corner(frame: ViewFrame, image_width: int, image_height: int)
    requires
        frame.width is Finite,
        frame.height is Finite,
        0 < image_width <= 0x7fff_ffff,
        0 < image_height <= 0x7fff_ffff,
    ensures
        frame.point_on_pixel_spec(0, 0, image_width, image_height) == frame.corner_spec(),
{
    lemma_first_step(frame.origin.x, frame.width, image_width);
    lemma_first_step(frame.origin.y, frame.height, image_height);
}

} // verus!
