//! The viewpoint from which rays are cast.
use crate::geometry::normal::Normal;
use crate::geometry::point::Point;
use crate::geometry::ray::Ray;
use crate::geometry::vector::{law_direction_is_bounded, Vector};
use crate::geometry::Transformation;
use crate::renderer::viewframe::ViewFrame;
use vstd::prelude::*;

verus! {

/// A viewpoint and the frame through which it looks.
#[derive(Clone, Copy, Debug, PartialEq, Eq, Structural)]
pub struct Camera {
    pub position: Point,
    pub view_frame: ViewFrame,
}

impl Camera {
    /// The ray from the camera's position through the world point of a
    /// pixel, with its direction normalised.
    pub open spec fn ray_for_pixel_spec(self, x: int, y: int, image_width: int, image_height: int) -> Ray {
        let point = self.view_frame.point_on_pixel_spec(x, y, image_width, image_height);
        let direction = point.sub_spec(self.position).normalize_spec();
        Ray {
            origin: self.position,
            direction: Vector { x: direction.x, y: direction.y, z: direction.z },
        }
    }

    /// The camera with its position carried by the transformation's
    /// matrix. The view frame stays.
    pub open spec fn transform_spec(self, transformation: Transformation) -> Camera {
        Camera {
            position: transformation.to_matrix_spec().mul_point_spec(self.position),
            view_frame: self.view_frame,
        }
    }

    /// The camera at `position` that looks through `view_frame`.
    pub fn new(position: Point, view_frame: ViewFrame) -> (r: Camera)
        ensures
            r == (Camera { position, view_frame }),
    {
        Camera { position, view_frame }
    }

    /// The ray from the camera's position through the world point of a
    /// pixel.
    pub fn ray_for_pixel(&self, x: usize, y: usize, image_width: usize, image_height: usize) -> (r: Ray)
        ensures
            r == self.ray_for_pixel_spec(x as int, y as int, image_width as int, image_height as int),
            r.has_bounded_direction(),
    {
        let point: Point = self.view_frame.point_on_pixel(x, y, image_width, image_height);
        let direction: Normal = point.sub(self.position).normalize();
        Ray::new(self.position, Vector { x: direction.x, y: direction.y, z: direction.z })
    }

    /// Carries the position by the transformation's matrix.
    pub fn transform(&mut self, transformation: Transformation)
        ensures
            *final(self) == old(self).transform_spec(transformation),
    {
        let matrix = transformation.transformation_to_matrix();
        self.position = matrix.mul_point(self.position);
    }
}

/// Every ray that a camera casts has a direction without a component
/// beyond one in magnitude.
pub proof fn law_camera_rays_are_bounded(
    camera: Camera,
    x: int,
    y: int,
    image_width: int,
    image_height: int,
)
    ensures
        camera.ray_for_pixel_spec(x, y, image_width, image_height).has_bounded_direction(),
{
    law_direction_is_bounded(
        camera.view_frame.point_on_pixel_spec(x, y, image_width, image_height).sub_spec(
            camera.position,
        ),
    );
}

} // verus!
