//! The camera, the scene and the loop that turns them into an image.
pub mod camera;
pub mod light;
pub mod scene;
pub mod viewframe;

use crate::geometry::ray::Ray;
use crate::renderer::camera::{law_camera_rays_are_bounded, Camera};
use crate::renderer::scene::{law_bounded_ray_sees_intensity, Scene};
use crate::scalar::Scalar;
use vstd::prelude::*;

verus! {

/// A scene, the camera that looks at it, and the size of the image.
#[derive(Clone, Debug)]
pub struct RayTracer {
    pub scene: Scene,
    pub camera: Camera,
    pub width: usize,
    pub height: usize,
}

/// A place in a row-major buffer of rows of `width`, for a column inside
/// the row, lies before the start of every later row.
pub proof fn lemma_row_major(width: int, x: int, y: int, rows: int)
    by (nonlinear_arith)
    requires
        0 <= x < width,
        0 <= y < rows,
    ensures
        0 <= y * width + x < rows * width,
{
}

/// Each row of a row-major buffer starts one width after the row before.
pub proof fn lemma_next_row(width: int, y: int)
    by (nonlinear_arith)
    ensures
        (y + 1) * width == y * width + width,
{
}

/// Every pixel has an intensity: no camera ray meets a shape at a point
/// without a surface normal.
pub proof fn law_every_pixel_has_intensity(tracer: RayTracer, x: int, y: int)
    requires
        tracer.scene.objects@.len() <= usize::MAX,
    ensures
        tracer.pixel_spec(x, y) is Some,
{
    reveal(RayTracer::pixel_spec);
    law_camera_rays_are_bounded(tracer.camera, x, y, tracer.width as int, tracer.height as int);
    law_bounded_ray_sees_intensity(tracer.scene, tracer.ray_spec(x, y));
}

impl RayTracer {
    /// The ray that the camera casts for a pixel.
    pub open spec fn ray_spec(self, x: int, y: int) -> Ray {
        self.camera.ray_for_pixel_spec(x, y, self.width as int, self.height as int)
    }

    /// The intensity of a pixel: what the scene shows along the camera's
    /// ray for it.
    #[verifier::opaque]
    pub open spec fn pixel_spec(self, x: int, y: int) -> Option<Scalar> {
        self.scene.shade_spec(self.ray_spec(x, y))
    }

    /// Whether `buffer` holds the intensity of every pixel, row by row.
    pub open spec fn is_image(self, buffer: Seq<Scalar>) -> bool {
        &&& buffer.len() == self.width * self.height
        &&& forall|x: int, y: int|
            0 <= x < self.width && 0 <= y < self.height ==> #[trigger] self.pixel_spec(x, y)
                == Some(buffer[y * self.width + x])
    }

    /// The tracer of an image of `width` by `height` pixels.
    pub fn new(scene: Scene, camera: Camera, width: usize, height: usize) -> (r: RayTracer)
        ensures
            r.scene == scene,
            r.camera == camera,
            r.width == width,
            r.height == height,
    {
        RayTracer { scene, camera, width, height }
    }

    /// The intensity of one pixel. It is never undefined and never below
    /// zero.
    pub fn trace_pixel(&self, x: usize, y: usize) -> (r: Scalar)
        ensures
            self.pixel_spec(x as int, y as int) == Some(r),
            Scalar::Finite(0).le_spec(r),
    {
        proof {
            reveal(RayTracer::pixel_spec);
        }
        let ray: Ray = self.camera.ray_for_pixel(x, y, self.width, self.height);
        self.scene.shade(&ray).unwrap()
    }

    /// The intensities of all pixels, row by row. None is undefined and
    /// none is below zero.
    pub fn render(&self) -> (buffer: Vec<Scalar>)
        requires
            self.width * self.height <= usize::MAX,
        ensures
            self.is_image(buffer@),
            forall|i: int|
                0 <= i < buffer@.len() ==> Scalar::Finite(0).le_spec(#[trigger] buffer@[i]),
    {
        let mut buffer: Vec<Scalar> = Vec::new();
        let mut y: usize = 0;
        while y < self.height
            invariant
                y <= self.height,
                buffer@.len() == y * self.width,
                forall|i: int|
                    0 <= i < buffer@.len() ==> Scalar::Finite(0).le_spec(#[trigger] buffer@[i]),
                forall|u: int, v: int|
                    0 <= u < self.width && 0 <= v < y ==> #[trigger] self.pixel_spec(u, v) == Some(
                        buffer@[v * self.width + u],
                    ),
            decreases self.height - y,
        {
            let mut x: usize = 0;
            while x < self.width
                invariant
                    y < self.height,
                    x <= self.width,
                    buffer@.len() == y * self.width + x,
                    forall|i: int|
                        0 <= i < buffer@.len() ==> Scalar::Finite(0).le_spec(
                            #[trigger] buffer@[i],
                        ),
                    forall|u: int, v: int|
                        0 <= u < self.width && 0 <= v < y ==> #[trigger] self.pixel_spec(u, v)
                            == Some(buffer@[v * self.width + u]),
                    forall|u: int|
                        0 <= u < x ==> #[trigger] self.pixel_spec(u, y as int) == Some(
                            buffer@[y * self.width + u],
                        ),
                decreases self.width - x,
            {
                let ghost before = buffer@;
                let intensity: Scalar = self.trace_pixel(x, y);
                buffer.push(intensity);
                proof {
                    assert forall|u: int, v: int| 0 <= u < self.width && 0 <= v < y implies (
                    #[trigger] self.pixel_spec(u, v)) == Some(buffer@[v * self.width + u]) by {
                        lemma_row_major(self.width as int, u, v, y as int);
                        assert(buffer@[v * self.width + u] == before[v * self.width + u]);
                    }
                }
                x = x + 1;
            }
            proof {
                lemma_next_row(self.width as int, y as int);
            }
            y = y + 1;
        }
        proof {
            assert(buffer@.len() == self.width * self.height) by (nonlinear_arith)
                requires
                    buffer@.len() == y * self.width,
                    y == self.height,
            ;
        }
        buffer
    }
}

} // verus!
