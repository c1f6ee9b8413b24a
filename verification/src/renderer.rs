//! The renderer: a running sum of light for every pixel, and the image
//! that is shown of it.
//!
//! Each pass adds one sample of light to the sum of every pixel and counts
//! one frame. The pixel shown is the sum over the number of frames, brought
//! into `[0, 1]` and packed into bytes. A resize starts over.

use crate::camera::{Camera, CameraView};
use crate::integrator::{are_samples, pixel_color, radiance, MAX_DEPTH};
use crate::ppm::{encode, spec_encode};
use crate::preview::{is_preview_sample, per_pixel};
use crate::scalar::{Double, BYTE_MAX, ONE, ZERO};
use crate::scatter::ScatterSample;
use crate::scene::Scene;
use crate::utils::{random_f64, some_kind_of_gamma};
use crate::vec3::Vec4;
use vstd::prelude::*;

verus! {

/// The image and the sums behind it.
pub struct Renderer {
    pixels: Vec<u32>,
    width: usize,
    height: usize,
    accum: Vec<Vec4>,
    frame_index: usize,
}

/// What a renderer holds.
pub struct RendererView {
    /// The image, row by row from the bottom, each pixel packed as
    /// [`pack`] does.
    pub pixels: Seq<u32>,
    pub width: usize,
    pub height: usize,
    /// For each pixel the sum of the samples since the last resize.
    pub accum: Seq<Vec4>,
    /// The number of passes since the last resize.
    pub frame_index: usize,
}

impl View for Renderer {
    type V = RendererView;

    closed spec fn view(&self) -> RendererView {
        RendererView {
            pixels: self.pixels@,
            width: self.width,
            height: self.height,
            accum: self.accum@,
            frame_index: self.frame_index,
        }
    }
}

/// Four bytes in one word, red lowest: `r + (g << 8) + (b << 16) + (a << 24)`.
pub open spec fn spec_pack(r: u8, g: u8, b: u8, a: u8) -> u32 {
    (r as u32 + ((g as u32) << 8) + ((b as u32) << 16) + ((a as u32) << 24)) as u32
}

/// The red byte of a pixel.
pub open spec fn spec_red(pixel: u32) -> u32 {
    (pixel >> 0) & 0xFF
}

/// The green byte of a pixel.
pub open spec fn spec_green(pixel: u32) -> u32 {
    (pixel >> 8) & 0xFF
}

/// The blue byte of a pixel.
pub open spec fn spec_blue(pixel: u32) -> u32 {
    (pixel >> 16) & 0xFF
}

/// The byte of a channel: 255 times the channel, cut to its integer part.
pub open spec fn channel_byte(c: Double) -> u8 {
    Double { bits: BYTE_MAX }.mul(c).to_byte()
}

/// The pixel of a colour whose channels lie in `[0, 1]`.
pub open spec fn spec_vec4_to_u32(v: &Vec4) -> u32 {
    spec_pack(channel_byte(v.x), channel_byte(v.y), channel_byte(v.z), channel_byte(v.w))
}

/// A channel brought into `[0, 1]`: the maximum of the channel and 0, and
/// of that the minimum with 1. No number, like a number below zero, gives
/// zero.
pub open spec fn spec_clamp_channel(x: Double) -> Double {
    if x.gt(Double { bits: ZERO }) {
        if x.lt(Double { bits: ONE }) {
            x
        } else {
            Double { bits: ONE }
        }
    } else {
        Double { bits: ZERO }
    }
}

/// Every channel brought into `[0, 1]`.
pub open spec fn spec_clamp_unit(v: Vec4) -> Vec4 {
    Vec4 {
        x: spec_clamp_channel(v.x),
        y: spec_clamp_channel(v.y),
        z: spec_clamp_channel(v.z),
        w: spec_clamp_channel(v.w),
    }
}

/// The pixel that is shown for the sum `sum` of `count` samples: the sum
/// over the count, brought into `[0, 1]`, the square root taken of the
/// colours, packed into bytes.
pub open spec fn spec_display(sum: Vec4, count: usize) -> u32 {
    let mean = spec_clamp_unit(sum.div(Double::from_usize(count)));
    spec_vec4_to_u32(&some_kind_of_gamma(&mean))
}

impl RendererView {
    /// The image and the sums have one entry for each pixel.
    pub open spec fn wf(self) -> bool {
        self.pixels.len() == self.width * self.height && self.accum.len() == self.width
            * self.height
    }

    /// A renderer without pixels.
    pub open spec fn empty() -> RendererView {
        RendererView {
            pixels: Seq::empty(),
            width: 0,
            height: 0,
            accum: Seq::empty(),
            frame_index: 0,
        }
    }

    /// A renderer of `width` by `height` pixels before its first pass: the
    /// image black and clear, every sum zero.
    pub open spec fn blank(width: usize, height: usize) -> RendererView {
        RendererView {
            pixels: Seq::new((width * height) as nat, |k: int| 0u32),
            width,
            height,
            accum: Seq::new((width * height) as nat, |k: int| Vec4::from_bits(ZERO, ZERO, ZERO, ZERO)),
            frame_index: 0,
        }
    }

    /// The renderer after a resize to `width` by `height` pixels, which is
    /// [`RendererView::blank`] whatever it held before.
    pub open spec fn resized(self, width: usize, height: usize) -> RendererView {
        RendererView::blank(width, height)
    }

    /// The renderer with `sample` added to the sum of the pixel `index`,
    /// and that pixel shown anew.
    pub open spec fn deposited(self, index: int, sample: Vec4) -> RendererView {
        let sum = self.accum[index].add(sample);
        RendererView {
            pixels: self.pixels.update(index, spec_display(sum, self.frame_index)),
            accum: self.accum.update(index, sum),
            ..self
        }
    }

    /// Between `self` and `after` the pixel `index` has received `sample`.
    pub open spec fn has_received(self, after: RendererView, index: int, sample: Vec4) -> bool {
        let sum = self.accum[index].add(sample);
        after.accum[index] == sum && after.pixels[index] == spec_display(sum, after.frame_index)
    }
}

/// `sample` is light that the full pass may find for the pixel of column
/// `i` and row `j`: the radiance, with [`MAX_DEPTH`] bounces, along a ray
/// through some place inside the pixel, for some draws at the bounces.
pub open spec fn is_recurse_sample(
    camera: CameraView,
    scene: &Scene,
    width: usize,
    height: usize,
    i: usize,
    j: usize,
    sample: Vec4,
) -> bool {
    exists|du: Double, dv: Double, samples: Seq<ScatterSample>|
        du.in_unit_interval() && dv.in_unit_interval() && are_samples(samples, MAX_DEPTH as nat)
            && sample == Vec4::from_color(
            radiance(
                &camera.pixel_ray(width, height, i, j, du, dv),
                scene,
                MAX_DEPTH as nat,
                samples,
            ),
        )
}

/// Between `before` and `after` the pixel `index` has received one sample
/// of a full pass.
pub open spec fn recurse_rendered(
    before: RendererView,
    after: RendererView,
    camera: CameraView,
    scene: &Scene,
    index: int,
) -> bool {
    exists|sample: Vec4|
        is_recurse_sample(
            camera,
            scene,
            before.width,
            before.height,
            (index % (before.width as int)) as usize,
            (index / (before.width as int)) as usize,
            sample,
        ) && before.has_received(after, index, sample)
}

/// Between `before` and `after` the pixel `index` has received one sample
/// of a preview pass.
pub open spec fn preview_rendered(
    before: RendererView,
    after: RendererView,
    camera: CameraView,
    scene: &Scene,
    index: int,
) -> bool {
    exists|sample: Vec4|
        is_preview_sample(
            camera,
            scene,
            before.width,
            before.height,
            (index % (before.width as int)) as usize,
            (index / (before.width as int)) as usize,
            sample,
        ) && before.has_received(after, index, sample)
}

/// A resize to the size that the renderer has is a reset and no more: the
/// renderer after two equal resizes in a row is the renderer after one,
/// with no pass counted.
pub proof fn lemma_resize_twice(r: RendererView, width: usize, height: usize)
    ensures
        r.resized(width, height).resized(width, height) == r.resized(width, height),
        r.resized(width, height).frame_index == 0,
        r.resized(width, height).wf(),
{
}

/// Samples for two different pixels may be added in either order.
pub proof fn lemma_deposits_commute(r: RendererView, first: int, a: Vec4, second: int, b: Vec4)
    requires
        r.wf(),
        0 <= first < r.accum.len(),
        0 <= second < r.accum.len(),
        first != second,
    ensures
        r.deposited(first, a).deposited(second, b) == r.deposited(second, b).deposited(first, a),
{
    let x = r.deposited(first, a).deposited(second, b);
    let y = r.deposited(second, b).deposited(first, a);
    assert(x.pixels =~= y.pixels);
    assert(x.accum =~= y.accum);
}

/// The bytes of a packed pixel are the bytes that were packed.
pub proof fn lemma_pack_channels(r: u8, g: u8, b: u8, a: u8)
    ensures
        spec_red(spec_pack(r, g, b, a)) == r,
        spec_green(spec_pack(r, g, b, a)) == g,
        spec_blue(spec_pack(r, g, b, a)) == b,
{
    let r32 = r as u32;
    let g32 = g as u32;
    let b32 = b as u32;
    let a32 = a as u32;
    assert(r32 <= 255 && g32 <= 255 && b32 <= 255 && a32 <= 255 ==> (r32 + (g32 << 8) + (b32 << 16)
        + (a32 << 24)) == (r32 | (g32 << 8) | (b32 << 16) | (a32 << 24)) && r32 + (g32 << 8) <= 0xFFFF
        && r32 + (g32 << 8) + (b32 << 16) <= 0xFF_FFFF) by (bit_vector);
    let p = r32 | (g32 << 8) | (b32 << 16) | (a32 << 24);
    assert(r32 <= 255 && g32 <= 255 && b32 <= 255 && a32 <= 255 && p == (r32 | (g32 << 8) | (b32
        << 16) | (a32 << 24)) ==> (p >> 0) & 0xFF == r32 && (p >> 8) & 0xFF == g32 && (p >> 16) & 0xFF
        == b32) by (bit_vector);
}

/// Four bytes in one word, red lowest.
#[verifier::when_used_as_spec(spec_pack)]
pub fn pack(r: u8, g: u8, b: u8, a: u8) -> (p: u32)
    ensures
        p == spec_pack(r, g, b, a),
{
    let r32 = r as u32;
    let g32 = g as u32;
    let b32 = b as u32;
    let a32 = a as u32;
    assert(r32 <= 255 && g32 <= 255 && b32 <= 255 && a32 <= 255 ==> (g32 << 8) <= 0xFF00 && (b32
        << 16) <= 0xFF_0000 && (a32 << 24) <= 0xFF00_0000 && r32 + (g32 << 8) <= 0xFFFF && r32 + (g32
        << 8) + (b32 << 16) <= 0xFF_FFFF && (r32 + (g32 << 8) + (b32 << 16)) + (a32 << 24)
        <= 0xFFFF_FFFF) by (bit_vector);
    r32 + (g32 << 8) + (b32 << 16) + (a32 << 24)
}

/// The pixel of a colour whose channels lie in `[0, 1]`.
#[verifier::when_used_as_spec(spec_vec4_to_u32)]
pub fn vec4_to_u32(v: &Vec4) -> (p: u32)
    ensures
        p == spec_vec4_to_u32(v),
{
    let scale = Double::from_bits(BYTE_MAX);
    let r = scale.mul(v.x).to_byte();
    let g = scale.mul(v.y).to_byte();
    let b = scale.mul(v.z).to_byte();
    let a = scale.mul(v.w).to_byte();
    pack(r, g, b, a)
}

/// A channel brought into `[0, 1]`. The sign of a zero, which the maximum
/// leaves open, is cleared.
#[verifier::when_used_as_spec(spec_clamp_channel)]
pub fn clamp_channel(x: Double) -> (r: Double)
    ensures
        r == spec_clamp_channel(x),
{
    x.max(Double::from_bits(ZERO)).min(Double::from_bits(ONE)).abs()
}

/// The pixel that is shown for the sum `sum` of `count` samples.
#[verifier::when_used_as_spec(spec_display)]
pub fn display(sum: Vec4, count: usize) -> (p: u32)
    ensures
        p == spec_display(sum, count),
{
    let mean = sum.div(Double::from_usize(count));
    let clamped = Vec4::new(
        clamp_channel(mean.x),
        clamp_channel(mean.y),
        clamp_channel(mean.z),
        clamp_channel(mean.w),
    );
    vec4_to_u32(&some_kind_of_gamma(&clamped))
}

impl Renderer {
    #[verifier::type_invariant]
    spec fn has_a_slot_for_each_pixel(self) -> bool {
        self@.wf()
    }

    /// A renderer without pixels.
    pub fn new() -> (r: Renderer)
        ensures
            r@ == RendererView::empty(),
            r@.wf(),
    {
        let r = Renderer {
            pixels: Vec::new(),
            width: 0,
            height: 0,
            accum: Vec::new(),
            frame_index: 0,
        };
        assert(r@.pixels =~= Seq::<u32>::empty());
        assert(r@.accum =~= Seq::<Vec4>::empty());
        r
    }

    /// Starts over with an image of `width` by `height` pixels.
    pub fn on_resize(&mut self, width: usize, height: usize)
        requires
            width * height <= usize::MAX,
        ensures
            final(self)@ == old(self)@.resized(width, height),
            final(self)@.wf(),
    {
        let n: usize = width * height;
        let blank = Renderer {
            pixels: vec![0u32; n],
            width,
            height,
            accum: vec![Vec4::from_bits(ZERO, ZERO, ZERO, ZERO); n],
            frame_index: 0,
        };
        assert(blank@.pixels =~= RendererView::blank(width, height).pixels);
        assert(blank@.accum =~= RendererView::blank(width, height).accum);
        *self = blank;
    }

    /// The number of pixels in a row.
    pub fn width(&self) -> (r: usize)
        ensures
            r == self@.width,
    {
        self.width
    }

    /// The number of rows.
    pub fn height(&self) -> (r: usize)
        ensures
            r == self@.height,
    {
        self.height
    }

    /// The number of passes since the last resize.
    pub fn frame_index(&self) -> (r: usize)
        ensures
            r == self@.frame_index,
    {
        self.frame_index
    }

    /// The image, row by row from the bottom.
    pub fn pixels(&self) -> (r: &Vec<u32>)
        ensures
            r@ == self@.pixels,
    {
        &self.pixels
    }

    /// The sums, row by row from the bottom.
    pub fn accum(&self) -> (r: &Vec<Vec4>)
        ensures
            r@ == self@.accum,
    {
        &self.accum
    }

    /// The image as a plain-text pixmap, the topmost row first.
    pub fn ppm(&self) -> (text: Vec<u8>)
        ensures
            text@ == spec_encode(self@.pixels, self@.width, self@.height),
    {
        proof {
            use_type_invariant(self);
        }
        encode(&self.pixels, self.width, self.height)
    }

    /// Counts a pass.
    pub fn begin_frame(&mut self)
        requires
            old(self)@.frame_index < usize::MAX,
        ensures
            final(self)@ == (RendererView {
                frame_index: (old(self)@.frame_index + 1) as usize,
                ..old(self)@
            }),
            final(self)@.wf(),
    {
        proof {
            use_type_invariant(&*self);
        }
        self.frame_index += 1;
    }

    /// Adds `sample` to the sum of the pixel `index` and shows that pixel
    /// anew.
    pub fn deposit(&mut self, index: usize, sample: Vec4)
        requires
            index < old(self)@.accum.len(),
        ensures
            final(self)@ == old(self)@.deposited(index as int, sample),
            final(self)@.wf(),
    {
        proof {
            use_type_invariant(&*self);
        }
        let sum = self.accum[index].add(sample);
        self.accum[index] = sum;
        self.pixels[index] = display(sum, self.frame_index);
    }

    /// One preview pass: every pixel receives one sample of the light that
    /// [`per_pixel`] finds through it, and is shown with the square root of
    /// its colours.
    pub fn render(&mut self, camera: &Camera, scene: &Scene)
        requires
            scene.wf(),
            old(self)@.frame_index < usize::MAX,
        ensures
            final(self)@.wf(),
            final(self)@.width == old(self)@.width,
            final(self)@.height == old(self)@.height,
            final(self)@.frame_index == old(self)@.frame_index + 1,
            forall|k: int|
                0 <= k < old(self)@.width * old(self)@.height ==> #[trigger] preview_rendered(
                    old(self)@,
                    final(self)@,
                    camera@,
                    scene,
                    k,
                ),
    {
        self.begin_frame();
        let ghost before = old(self)@;
        let width = self.width;
        let height = self.height;
        let total = self.pixels.len();
        let mut j: usize = 0;
        while j < height
            invariant
                j <= height,
                total == width * height,
                width == before.width,
                height == before.height,
                before.wf(),
                scene.wf(),
                self@.wf(),
                self@.width == width,
                self@.height == height,
                self@.frame_index == before.frame_index + 1,
                forall|k: int|
                    0 <= k < j * width ==> #[trigger] preview_rendered(
                        before,
                        self@,
                        camera@,
                        scene,
                        k,
                    ),
                forall|k: int| j * width <= k < width * height ==> self@.accum[k] == before.accum[k],
            decreases height - j,
        {
            let mut i: usize = 0;
            while i < width
                invariant
                    i <= width,
                    j < height,
                    total == width * height,
                    width == before.width,
                    height == before.height,
                    before.wf(),
                    scene.wf(),
                    self@.wf(),
                    self@.width == width,
                    self@.height == height,
                    self@.frame_index == before.frame_index + 1,
                    forall|k: int|
                        0 <= k < j * width + i ==> #[trigger] preview_rendered(
                            before,
                            self@,
                            camera@,
                            scene,
                            k,
                        ),
                    forall|k: int|
                        j * width + i <= k < width * height ==> self@.accum[k] == before.accum[k],
                decreases width - i,
            {
                proof {
                    lemma_flat_index(i as int, j as int, width as int, height as int);
                }
                let index = i + j * width;
                let ghost earlier = self@;
                let color = per_pixel(i, j, width, height, camera, scene);
                self.deposit(index, color);
                proof {
                    assert(before.has_received(self@, index as int, color));
                    assert(preview_rendered(before, self@, camera@, scene, index as int));
                    assert forall|k: int| 0 <= k < j * width + i + 1 implies #[trigger] preview_rendered(
                        before,
                        self@,
                        camera@,
                        scene,
                        k,
                    ) by {
                        if k < index {
                            assert(preview_rendered(before, earlier, camera@, scene, k));
                            let sample = choose|sample: Vec4|
                                is_preview_sample(
                                    camera@,
                                    scene,
                                    before.width,
                                    before.height,
                                    (k % (before.width as int)) as usize,
                                    (k / (before.width as int)) as usize,
                                    sample,
                                ) && before.has_received(earlier, k, sample);
                            assert(before.has_received(self@, k, sample));
                        }
                    }
                }
                i += 1;
            }
            proof {
                assert((j + 1) * width == j * width + width) by (nonlinear_arith);
            }
            j += 1;
        }
        proof {
            assert(height * width == width * height) by (nonlinear_arith);
        }
    }

    /// One full pass: every pixel receives one sample of the radiance, with
    /// [`MAX_DEPTH`] bounces, along a ray through a place drawn inside the
    /// pixel, and is shown with the square root of its colours.
    pub fn render_recurse(&mut self, camera: &Camera, scene: &Scene)
        requires
            scene.wf(),
            old(self)@.frame_index < usize::MAX,
        ensures
            final(self)@.wf(),
            final(self)@.width == old(self)@.width,
            final(self)@.height == old(self)@.height,
            final(self)@.frame_index == old(self)@.frame_index + 1,
            forall|k: int|
                0 <= k < old(self)@.width * old(self)@.height ==> #[trigger] recurse_rendered(
                    old(self)@,
                    final(self)@,
                    camera@,
                    scene,
                    k,
                ),
    {
        self.begin_frame();
        let ghost before = old(self)@;
        let width = self.width;
        let height = self.height;
        let total = self.pixels.len();
        let mut j: usize = 0;
        while j < height
            invariant
                j <= height,
                total == width * height,
                width == before.width,
                height == before.height,
                before.wf(),
                scene.wf(),
                self@.wf(),
                self@.width == width,
                self@.height == height,
                self@.frame_index == before.frame_index + 1,
                forall|k: int|
                    0 <= k < j * width ==> #[trigger] recurse_rendered(
                        before,
                        self@,
                        camera@,
                        scene,
                        k,
                    ),
                forall|k: int| j * width <= k < width * height ==> self@.accum[k] == before.accum[k],
            decreases height - j,
        {
            let mut i: usize = 0;
            while i < width
                invariant
                    i <= width,
                    j < height,
                    total == width * height,
                    width == before.width,
                    height == before.height,
                    before.wf(),
                    scene.wf(),
                    self@.wf(),
                    self@.width == width,
                    self@.height == height,
                    self@.frame_index == before.frame_index + 1,
                    forall|k: int|
                        0 <= k < j * width + i ==> #[trigger] recurse_rendered(
                            before,
                            self@,
                            camera@,
                            scene,
                            k,
                        ),
                    forall|k: int|
                        j * width + i <= k < width * height ==> self@.accum[k] == before.accum[k],
                decreases width - i,
            {
                proof {
                    lemma_flat_index(i as int, j as int, width as int, height as int);
                }
                let index = i + j * width;
                let ghost earlier = self@;
                let du = random_f64();
                let dv = random_f64();
                let ray = camera.get_pixel_ray(width, height, i, j, du, dv);
                let color = pixel_color(&ray, scene, MAX_DEPTH);
                let sample = Vec4::from_color(color);
                self.deposit(index, sample);
                proof {
                    let depth = MAX_DEPTH as nat;
                    let samples = choose|samples: Seq<ScatterSample>|
                        are_samples(samples, depth) && color == radiance(
                            &ray,
                            scene,
                            depth,
                            samples,
                        );
                    assert(is_recurse_sample(camera@, scene, width, height, i, j, sample));
                    assert(before.has_received(self@, index as int, sample));
                    assert(recurse_rendered(before, self@, camera@, scene, index as int));
                    assert forall|k: int| 0 <= k < j * width + i + 1 implies #[trigger] recurse_rendered(
                        before,
                        self@,
                        camera@,
                        scene,
                        k,
                    ) by {
                        if k < index {
                            assert(recurse_rendered(before, earlier, camera@, scene, k));
                            let other = choose|other: Vec4|
                                is_recurse_sample(
                                    camera@,
                                    scene,
                                    before.width,
                                    before.height,
                                    (k % (before.width as int)) as usize,
                                    (k / (before.width as int)) as usize,
                                    other,
                                ) && before.has_received(earlier, k, other);
                            assert(before.has_received(self@, k, other));
                        }
                    }
                }
                i += 1;
            }
            proof {
                assert((j + 1) * width == j * width + width) by (nonlinear_arith);
            }
            j += 1;
        }
        proof {
            assert(height * width == width * height) by (nonlinear_arith);
        }
    }
}

/// The pixel of column `i` and row `j` has the place `i + j * width` in the
/// image, from which column and row come back by remainder and quotient.
pub proof fn lemma_flat_index(i: int, j: int, width: int, height: int)
    requires
        0 <= i < width,
        0 <= j < height,
    ensures
        0 <= j * width,
        i + j * width < width * height,
        (i + j * width) % width == i,
        (i + j * width) / width == j,
{
    assert(0 <= j * width) by (nonlinear_arith)
        requires
            0 <= j,
            0 <= width,
    ;
    assert(i + j * width < width * height) by (nonlinear_arith)
        requires
            0 <= i < width,
            0 <= j < height,
    ;
    vstd::arithmetic::div_mod::lemma_fundamental_div_mod_converse(i + j * width, width, j, i);
}

} // verus!
