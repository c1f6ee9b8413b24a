//! The camera: from a point of the image to a ray into the scene.
//!
//! A camera holds what it was told, the eye, the point it looks at, the
//! upward direction, the tangent of half its field of view, the distance of
//! the image plane and the ratio of the image, and the frame that follows
//! from these: the spans and the corner of the image plane. Every call that
//! changes one of the former derives the frame anew, so the frame of a
//! camera is always the one that [`CameraView::derived`] gives.

use crate::ray::Ray;
use crate::scalar::{Double, Float, MINUS_ONE, ONE, TWO, ZERO};
use crate::vec3::Vec3;
use vstd::prelude::*;

verus! {

/// A camera.
pub struct Camera {
    viewport_width: Double,
    viewport_height: Double,
    half_height: Double,
    focus_dist: Double,
    origin: Vec3,
    look_at: Vec3,
    v_up: Vec3,
    horizontal: Vec3,
    vertical: Vec3,
    lower_left_corner: Vec3,
}

/// What a camera holds.
pub struct CameraView {
    /// The width of the image plane that the last resize gave; only its
    /// ratio to the height counts.
    pub viewport_width: Double,
    /// The height of the image plane that the last resize gave.
    pub viewport_height: Double,
    /// The tangent of half the vertical field of view.
    pub half_height: Double,
    /// The distance from the eye to the image plane.
    pub focus_dist: Double,
    /// The eye.
    pub origin: Vec3,
    /// The point that the camera looks at.
    pub look_at: Vec3,
    /// The direction that is upwards in the image.
    pub v_up: Vec3,
    /// The span of the image plane from left to right.
    pub horizontal: Vec3,
    /// The span of the image plane from bottom to top.
    pub vertical: Vec3,
    /// The lower left corner of the image plane.
    pub lower_left_corner: Vec3,
}

impl View for Camera {
    type V = CameraView;

    closed spec fn view(&self) -> CameraView {
        CameraView {
            viewport_width: self.viewport_width,
            viewport_height: self.viewport_height,
            half_height: self.half_height,
            focus_dist: self.focus_dist,
            origin: self.origin,
            look_at: self.look_at,
            v_up: self.v_up,
            horizontal: self.horizontal,
            vertical: self.vertical,
            lower_left_corner: self.lower_left_corner,
        }
    }
}

impl CameraView {
    /// The direction from the point looked at back to the eye, of length
    /// one.
    pub open spec fn backward(self) -> Vec3 {
        self.origin.sub(self.look_at).normalize()
    }

    /// The direction to the right of the view, of length one.
    pub open spec fn rightward(self) -> Vec3 {
        self.v_up.cross(self.backward()).normalize()
    }

    /// The direction to the top of the view.
    pub open spec fn upward(self) -> Vec3 {
        self.backward().cross(self.rightward())
    }

    /// The height of the image plane at distance one: twice the tangent of
    /// half the field of view.
    pub open spec fn plane_height(self) -> Double {
        Double { bits: TWO }.mul(self.half_height)
    }

    /// The width of the image plane at distance one: the height times the
    /// ratio of width to height of the last resize.
    pub open spec fn plane_width(self) -> Double {
        self.viewport_width.div(self.viewport_height).mul(self.plane_height())
    }

    /// The corner of an image plane that lies `depth` away from `origin`:
    /// the origin less half of each span, less `depth`.
    pub open spec fn corner(origin: Vec3, horizontal: Vec3, vertical: Vec3, depth: Vec3) -> Vec3 {
        origin.sub(horizontal.div(Double { bits: TWO })).sub(vertical.div(Double { bits: TWO })).sub(
            depth,
        )
    }

    /// The camera with its frame derived anew: the spans run to the right
    /// and to the top of the view, as long as the image plane is wide and
    /// high at the focus distance, and the corner lies the focus distance
    /// before the eye.
    pub open spec fn derived(self) -> CameraView {
        let horizontal = self.rightward().scale(self.plane_width()).scale(self.focus_dist);
        let vertical = self.upward().scale(self.plane_height()).scale(self.focus_dist);
        CameraView {
            horizontal,
            vertical,
            lower_left_corner: CameraView::corner(
                self.origin,
                horizontal,
                vertical,
                self.backward().scale(self.focus_dist),
            ),
            ..self
        }
    }

    /// The frame is the one that follows from what the camera was told.
    pub open spec fn is_framed(self) -> bool {
        self == self.derived()
    }

    /// A new camera: the eye at the zero point, looking down the negative
    /// z axis with y upwards, a field of view of a right angle, the image
    /// plane square and at distance one.
    pub open spec fn initial() -> CameraView {
        CameraView {
            viewport_width: Double { bits: TWO },
            viewport_height: Double { bits: TWO },
            half_height: Double { bits: ONE },
            focus_dist: Double { bits: ONE },
            origin: Vec3::from_bits(ZERO, ZERO, ZERO),
            look_at: Vec3::from_bits(ZERO, ZERO, MINUS_ONE),
            v_up: Vec3::from_bits(ZERO, ONE, ZERO),
            horizontal: Vec3::from_bits(ZERO, ZERO, ZERO),
            vertical: Vec3::from_bits(ZERO, ZERO, ZERO),
            lower_left_corner: Vec3::from_bits(ZERO, ZERO, ZERO),
        }.derived()
    }

    /// The camera after a resize to `width` by `height` pixels: the image
    /// plane takes the ratio of the two, and the frame is derived anew for
    /// the same eye, the same point looked at and the same field of view.
    pub open spec fn resized(self, width: usize, height: usize) -> CameraView {
        let aspect_ratio = Double::from_usize(width).div(Double::from_usize(height));
        CameraView {
            viewport_width: aspect_ratio.mul(Double { bits: TWO }),
            viewport_height: Double { bits: TWO },
            ..self
        }.derived()
    }

    /// The camera with the eye at `(x, y, 0)` and the point looked at moved
    /// as far as the eye.
    pub open spec fn moved_to(self, x: Double, y: Double) -> CameraView {
        let origin = Vec3 { x, y, z: Double { bits: ZERO } };
        CameraView { origin, look_at: self.look_at.add(origin.sub(self.origin)), ..self }.derived()
    }

    /// The camera with the eye at `look_from`, looking at `look_at` with
    /// `v_up` upwards, where `half_height` is the tangent of half the field
    /// of view and the image plane lies `focus_dist` before the eye. The
    /// image plane keeps the ratio of width to height of the last resize.
    pub open spec fn aimed(
        self,
        look_from: &Vec3,
        look_at: &Vec3,
        v_up: &Vec3,
        half_height: Double,
        focus_dist: Double,
    ) -> CameraView {
        CameraView {
            origin: *look_from,
            look_at: *look_at,
            v_up: *v_up,
            half_height,
            focus_dist,
            ..self
        }.derived()
    }

    /// The ray from the eye through the point of the image plane at `u` of
    /// its width and `v` of its height.
    pub open spec fn ray(self, u: Double, v: Double) -> Ray {
        Ray {
            origin: self.origin,
            direction: self.lower_left_corner.add(self.horizontal.scale(u)).add(
                self.vertical.scale(v),
            ).sub(self.origin),
        }
    }

    /// The ray through the pixel of column `x` and row `y` of an image of
    /// `width` by `height` pixels, with the draws `du` and `dv` from
    /// `[0, 1)` for the place inside the pixel: through the image plane at
    /// `(x + du) / width` and `(y + dv) / height`.
    pub open spec fn pixel_ray(
        self,
        width: usize,
        height: usize,
        x: usize,
        y: usize,
        du: Double,
        dv: Double,
    ) -> Ray {
        let u = Double::from_usize(x).add(du).div(Double::from_usize(width));
        let v = Double::from_usize(y).add(dv).div(Double::from_usize(height));
        self.ray(u, v)
    }
}

/// Half of an angle given in degrees, in radians: the angle of which
/// [`Camera::setup`] takes the tangent.
pub open spec fn spec_half_angle(vfov: Double) -> Double {
    vfov.radians().div(Double { bits: TWO })
}

/// A resize to the size that the camera has is no change: the frame after
/// two equal resizes in a row is the frame after one.
pub proof fn lemma_resize_twice(camera: CameraView, width: usize, height: usize)
    ensures
        camera.resized(width, height).resized(width, height) == camera.resized(width, height),
{
}

/// After a resize the camera has the eye, the point looked at, the upward
/// direction, the field of view and the focus distance that it had, and
/// the frame that follows from them.
pub proof fn lemma_resize_keeps_the_view(camera: CameraView, width: usize, height: usize)
    ensures
        camera.resized(width, height).origin == camera.origin,
        camera.resized(width, height).look_at == camera.look_at,
        camera.resized(width, height).v_up == camera.v_up,
        camera.resized(width, height).half_height == camera.half_height,
        camera.resized(width, height).focus_dist == camera.focus_dist,
        camera.resized(width, height).backward() == camera.backward(),
        camera.resized(width, height).rightward() == camera.rightward(),
        camera.resized(width, height).upward() == camera.upward(),
        camera.resized(width, height).is_framed(),
{
}

/// A frame that was derived is the frame that follows from what the camera
/// was told.
pub proof fn lemma_derived_is_framed(camera: CameraView)
    ensures
        camera.derived().is_framed(),
{
}

/// Half of an angle given in degrees, in radians.
#[verifier::when_used_as_spec(spec_half_angle)]
pub fn half_angle(vfov: Double) -> (r: Double)
    ensures
        r == spec_half_angle(vfov),
{
    vfov.radians().div(Double::from_bits(TWO))
}

impl Camera {
    /// A new camera.
    pub fn new() -> (r: Camera)
        ensures
            r@ == CameraView::initial(),
            r@.is_framed(),
    {
        let mut camera = Camera {
            viewport_width: Double::from_bits(TWO),
            viewport_height: Double::from_bits(TWO),
            half_height: Double::from_bits(ONE),
            focus_dist: Double::from_bits(ONE),
            origin: Vec3::from_bits(ZERO, ZERO, ZERO),
            look_at: Vec3::from_bits(ZERO, ZERO, MINUS_ONE),
            v_up: Vec3::from_bits(ZERO, ONE, ZERO),
            horizontal: Vec3::from_bits(ZERO, ZERO, ZERO),
            vertical: Vec3::from_bits(ZERO, ZERO, ZERO),
            lower_left_corner: Vec3::from_bits(ZERO, ZERO, ZERO),
        };
        camera.on_update();
        camera
    }

    fn on_update(&mut self)
        ensures
            final(self)@ == old(self)@.derived(),
            final(self)@.is_framed(),
    {
        let viewport_height = Double::from_bits(TWO).mul(self.half_height);
        let aspect_ratio = self.viewport_width.div(self.viewport_height);
        let viewport_width = aspect_ratio.mul(viewport_height);

        let w = self.origin.sub(self.look_at).normalize();
        let u = self.v_up.cross(w).normalize();
        let v = w.cross(u);

        self.horizontal = u.scale(viewport_width).scale(self.focus_dist);
        self.vertical = v.scale(viewport_height).scale(self.focus_dist);
        self.lower_left_corner = self.origin.sub(self.horizontal.div(Double::from_bits(TWO))).sub(
            self.vertical.div(Double::from_bits(TWO)),
        ).sub(w.scale(self.focus_dist));
    }

    /// Fits the image plane to an image of `width` by `height` pixels and
    /// derives the frame anew. Where the camera looks stays as it is.
    pub fn on_resize(&mut self, width: usize, height: usize)
        ensures
            final(self)@ == old(self)@.resized(width, height),
            final(self)@.is_framed(),
    {
        let aspect_ratio = Double::from_usize(width).div(Double::from_usize(height));
        self.viewport_height = Double::from_bits(TWO);
        self.viewport_width = aspect_ratio.mul(self.viewport_height);
        self.on_update();
    }

    /// Puts the eye at `(x, y, 0)` and moves the point looked at as far.
    pub fn move_to(&mut self, x: Double, y: Double)
        ensures
            final(self)@ == old(self)@.moved_to(x, y),
            final(self)@.is_framed(),
    {
        let origin = Vec3::new(x, y, Double::from_bits(ZERO));
        self.look_at = self.look_at.add(origin.sub(self.origin));
        self.origin = origin;
        self.on_update();
    }

    /// The ray from the eye through the point of the image plane at `u` of
    /// its width and `v` of its height.
    pub fn get_ray(&self, u: Double, v: Double) -> (r: Ray)
        ensures
            r == self@.ray(u, v),
    {
        Ray::new(
            self.origin,
            self.lower_left_corner.add(self.horizontal.scale(u)).add(self.vertical.scale(v)).sub(
                self.origin,
            ),
        )
    }

    /// The ray through the place that `du` and `dv` pick inside the pixel
    /// of column `x` and row `y` of an image of `width` by `height` pixels.
    pub fn get_pixel_ray(
        &self,
        width: usize,
        height: usize,
        x: usize,
        y: usize,
        du: Double,
        dv: Double,
    ) -> (r: Ray)
        ensures
            r == self@.pixel_ray(width, height, x, y, du, dv),
    {
        let u = Double::from_usize(x).add(du).div(Double::from_usize(width));
        let v = Double::from_usize(y).add(dv).div(Double::from_usize(height));
        self.get_ray(u, v)
    }

    /// Puts the eye at `look_from`, looking at `look_at` with `v_up`
    /// upwards, for the tangent `half_height` of half the field of view.
    pub fn aim(
        &mut self,
        look_from: &Vec3,
        look_at: &Vec3,
        v_up: &Vec3,
        half_height: Double,
        focus_dist: Double,
    )
        ensures
            final(self)@ == old(self)@.aimed(look_from, look_at, v_up, half_height, focus_dist),
            final(self)@.is_framed(),
    {
        self.origin = *look_from;
        self.look_at = *look_at;
        self.v_up = *v_up;
        self.half_height = half_height;
        self.focus_dist = focus_dist;
        self.on_update();
    }

    /// Puts the eye at `look_from`, looking at `look_at` with `v_up`
    /// upwards and a vertical field of view of `vfov` degrees. The tangent
    /// is taken of [`half_angle`] of `vfov` by the platform, which does not
    /// fix its last bits: the frame is the one that [`Camera::aim`] derives
    /// from the tangent that came back.
    pub fn setup(
        &mut self,
        look_from: &Vec3,
        look_at: &Vec3,
        v_up: &Vec3,
        vfov: Double,
        _aperture: Double,
        focus_dist: Double,
    )
        ensures
            exists|half_height: Double|
                final(self)@ == old(self)@.aimed(
                    look_from,
                    look_at,
                    v_up,
                    half_height,
                    focus_dist,
                ),
            final(self)@.is_framed(),
    {
        let h = tangent(half_angle(vfov));
        self.aim(look_from, look_at, v_up, h, focus_dist);
    }

    /// The eye.
    pub fn origin(&self) -> (r: Vec3)
        ensures
            r == self@.origin,
    {
        self.origin
    }

    /// The point that the camera looks at.
    pub fn look_at(&self) -> (r: Vec3)
        ensures
            r == self@.look_at,
    {
        self.look_at
    }

    /// The span of the image plane from left to right.
    pub fn horizontal(&self) -> (r: Vec3)
        ensures
            r == self@.horizontal,
    {
        self.horizontal
    }

    /// The span of the image plane from bottom to top.
    pub fn vertical(&self) -> (r: Vec3)
        ensures
            r == self@.vertical,
    {
        self.vertical
    }

    /// The lower left corner of the image plane.
    pub fn lower_left_corner(&self) -> (r: Vec3)
        ensures
            r == self@.lower_left_corner,
    {
        self.lower_left_corner
    }
}

/// `tan` of std on a double. Std leaves the precision of its result open, so
/// nothing is stated of it.
#[verifier::external_body]
fn tangent(a: Double) -> (r: Double)
{
    Double { bits: Float::from_bits(a.bits).tan().to_bits() }
}

} // verus!
