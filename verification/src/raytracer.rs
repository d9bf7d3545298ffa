//! The trace driver's decisions: whether a reflected ray is followed, where
//! each pixel of the image lies, and how the rendered pixels make the image.

use vstd::prelude::*;
use crate::Config;
use crate::intersection::Intersection;
use crate::raster::{Raster, Rgb8};

verus! {

/// The depth at which no further reflected ray is traced. The camera ray has
/// depth 0, so at most five rays are traced for one camera ray.
pub const MAX_REFLECTION_DEPTH: u8 = 4;

/// What follows the search for a ray's nearest strike.
#[derive(Clone, Copy, Debug, PartialEq, Eq, Structural)]
pub enum Step {
    /// The ray strikes nothing: its colour is the background, opaque black.
    Background,
    /// The ray's colour is the illumination at the strike.
    Local,
    /// The ray's colour is the illumination at the strike, and to it is added
    /// the colour of the reflected ray, traced at the given depth and scaled
    /// by the material's reflective colour and the specular coefficient.
    Reflect { depth: u8 },
}

/// A rendered pixel: its column, its row, and its colour.
pub type Rendered = (u32, u32, Rgb8);

/// Where a pixel lies.
#[derive(Clone, Copy, Debug, PartialEq, Eq, Structural)]
pub struct PixelPosition {
    /// The column, counted from the left.
    pub col: u32,
    /// The row, counted from the top.
    pub row: u32,
    /// The number of rows below this one: the view plane's vertical
    /// coordinate grows upward, the image's rows downward.
    pub rise: u32,
}

/// What follows the search for a ray's nearest strike, at a given depth.
pub open spec fn step(config: Config, closest: Option<Intersection>, depth: u8) -> Step {
    match closest {
        None => Step::Background,
        Some(hit) => if !config.enable_reflections || hit.material.matte() || depth
            >= MAX_REFLECTION_DEPTH {
            Step::Local
        } else {
            Step::Reflect { depth: (depth + 1) as u8 }
        },
    }
}

/// The number of rays traced for one ray at a given depth, if the rays
/// traced in turn find the given nearest strikes.
pub open spec fn rays_traced(config: Config, found: Seq<Option<Intersection>>, depth: u8) -> nat
    decreases found.len(),
{
    if found.len() == 0 {
        0
    } else {
        match step(config, found[0], depth) {
            Step::Reflect { depth: next } => 1 + rays_traced(config, found.skip(1), next),
            _ => 1,
        }
    }
}

/// Reflection ends: whatever the rays strike, a ray at a depth within the
/// bound is followed by no more further rays than the bound exceeds its
/// depth. For a camera ray, at depth zero, that makes five rays at most.
pub proof fn lemma_reflection_terminates(
    config: Config,
    found: Seq<Option<Intersection>>,
    depth: u8,
)
    requires
        depth <= MAX_REFLECTION_DEPTH,
    ensures
        rays_traced(config, found, depth) <= MAX_REFLECTION_DEPTH + 1 - depth,
        forall|closest: Option<Intersection>| #[trigger]
            step(config, closest, depth) matches Step::Reflect { depth: next } ==> next == depth
                + 1 && next <= MAX_REFLECTION_DEPTH,
    decreases found.len(),
{
    if found.len() > 0 {
        match step(config, found[0], depth) {
            Step::Reflect { depth: next } => {
                lemma_reflection_terminates(config, found.skip(1), next);
            },
            _ => {},
        }
    }
}

/// The colour of a pixel after the rendered pixels have been written in
/// order: that of the last one written at the pixel, black if there is none.
pub open spec fn painted(pixels: Seq<Rendered>, x: u32, y: u32) -> Rgb8
    decreases pixels.len(),
{
    if pixels.len() == 0 {
        (0u8, 0u8, 0u8)
    } else if pixels.last().0 == x && pixels.last().1 == y {
        pixels.last().2
    } else {
        painted(pixels.drop_last(), x, y)
    }
}

/// Whether no two of the rendered pixels lie at the same place.
pub open spec fn distinct_places(pixels: Seq<Rendered>) -> bool {
    forall|i: int, j: int|
        0 <= i < j < pixels.len() ==> !(pixels[i].0 == pixels[j].0 && pixels[i].1 == pixels[j].1)
}

/// Where every pixel is rendered once, the order in which the rendered
/// pixels arrive does not matter: each pixel has the colour it was rendered
/// with.
pub proof fn lemma_order_is_immaterial(pixels: Seq<Rendered>, k: int)
    requires
        distinct_places(pixels),
        0 <= k < pixels.len(),
    ensures
        painted(pixels, pixels[k].0, pixels[k].1) == pixels[k].2,
    decreases pixels.len(),
{
    if k < pixels.len() - 1 {
        let front = pixels.drop_last();
        assert(distinct_places(front)) by {
            assert forall|i: int, j: int| 0 <= i < j < front.len() implies !(front[i].0
                == front[j].0 && front[i].1 == front[j].1) by {
                assert(front[i] == pixels[i] && front[j] == pixels[j]);
            }
        }
        lemma_order_is_immaterial(front, k);
    }
}

/// Pixels may be rendered in any order, by any number of workers: if no
/// pixel is rendered twice, each pixel of the image has the colour that was
/// rendered for its index, whatever the order of arrival.
pub proof fn lemma_dispatch_order_is_immaterial(
    tracer: RayTracer,
    indices: Seq<u32>,
    colors: spec_fn(u32) -> Rgb8,
    k: int,
)
    requires
        forall|i: int|
            0 <= i < indices.len() ==> #[trigger] indices[i] < tracer.config.width
                * tracer.config.height,
        forall|i: int, j: int| 0 <= i < j < indices.len() ==> indices[i] != indices[j],
        0 <= k < indices.len(),
    ensures
        painted(
            tracer.arrivals(indices, colors),
            tracer.position(indices[k]).col,
            tracer.position(indices[k]).row,
        ) == colors(indices[k]),
{
    let pixels = tracer.arrivals(indices, colors);
    let w = tracer.config.width as int;
    let h = tracer.config.height as int;
    assert(w > 0) by (nonlinear_arith)
        requires
            0 <= w,
            0 <= indices[k] < w * h,
    ;
    assert forall|i: int, j: int| 0 <= i < j < pixels.len() implies !(pixels[i].0 == pixels[j].0
        && pixels[i].1 == pixels[j].1) by {
        let a = indices[i] as int;
        let b = indices[j] as int;
        lemma_place(a, w, h);
        lemma_place(b, w, h);
        if pixels[i].0 == pixels[j].0 && pixels[i].1 == pixels[j].1 {
            assert(a % w == b % w);
            assert(a / w == b / w);
            assert(a == b);
        }
    }
    lemma_order_is_immaterial(pixels, k);
}

/// An index splits into a multiple of `w` and a rest below `w`.
proof fn lemma_split(i: int, w: int)
    requires
        w > 0,
        0 <= i,
    ensures
        i == w * (i / w) + i % w,
        0 <= i % w < w,
        0 <= i / w,
{
    assert(i == w * (i / w) + i % w) by (nonlinear_arith)
        requires
            w > 0,
    ;
    assert(0 <= i % w < w) by (nonlinear_arith)
        requires
            w > 0,
    ;
    assert(0 <= i / w) by (nonlinear_arith)
        requires
            w > 0,
            0 <= i,
    ;
}

/// An index below `w * h` splits into a row below `h` and a column below
/// `w`, from which it is had again.
proof fn lemma_place(i: int, w: int, h: int)
    requires
        w > 0,
        0 <= i < w * h,
    ensures
        0 <= i % w < w,
        0 <= i / w < h,
        i == (i / w) * w + i % w,
{
    lemma_split(i, w);
    assert(i / w < h) by (nonlinear_arith)
        requires
            w > 0,
            i < w * h,
            i == w * (i / w) + i % w,
            0 <= i % w,
    ;
    assert(w * (i / w) == (i / w) * w) by (nonlinear_arith);
}

/// Renders a scene under a configuration.
#[derive(Debug)]
pub struct RayTracer {
    pub config: Config,
}

impl RayTracer {
    /// A ray tracer for a configuration.
    pub fn new(config: Config) -> (r: RayTracer)
        ensures
            r.config == config,
    {
        RayTracer { config }
    }

    /// The number of pixels of the image, if a `u32` can hold it.
    pub open spec fn pixels(self) -> Option<u32> {
        if self.config.width * self.config.height <= u32::MAX {
            Some((self.config.width * self.config.height) as u32)
        } else {
            None
        }
    }

    /// The place of the pixel with a given index, the pixels being counted
    /// row by row from the top left.
    pub open spec fn position(self, pixel_index: u32) -> PixelPosition {
        PixelPosition {
            col: (pixel_index % self.config.width) as u32,
            row: (pixel_index / self.config.width) as u32,
            rise: (self.config.height - 1 - pixel_index / self.config.width) as u32,
        }
    }

    /// The rendered pixels in their order of arrival, if the pixels are
    /// rendered in the order given by their indices and the pixel with index
    /// `i` gets the colour `colors(i)`.
    pub open spec fn arrivals(self, indices: Seq<u32>, colors: spec_fn(u32) -> Rgb8) -> Seq<
        Rendered,
    > {
        Seq::new(
            indices.len(),
            |k: int|
                (self.position(indices[k]).col, self.position(indices[k]).row, colors(indices[k])),
        )
    }

    /// Decides what follows the search for a ray's nearest strike: the
    /// background colour if there is none; else the illumination at the
    /// strike, to which a reflected ray adds unless reflections are
    /// disabled, the material reflects nothing, or the depth has reached
    /// its bound.
    pub fn trace_ray(&self, closest: &Option<Intersection>, depth: u8) -> (r: Step)
        ensures
            r == step(self.config, *closest, depth),
            r matches Step::Reflect { depth: next } ==> next == depth + 1 && next
                <= MAX_REFLECTION_DEPTH,
    {
        match closest {
            None => Step::Background,
            Some(hit) => {
                if !self.config.enable_reflections || hit.material.is_matte() || depth
                    >= MAX_REFLECTION_DEPTH {
                    Step::Local
                } else {
                    Step::Reflect { depth: depth + 1 }
                }
            },
        }
    }

    /// The number of pixels of the image, or `None` if a `u32` cannot hold
    /// it.
    pub fn pixel_count(&self) -> (r: Option<u32>)
        ensures
            r == self.pixels(),
    {
        self.config.width.checked_mul(self.config.height)
    }

    /// The place of the pixel with a given index, or `None` if the image
    /// has no pixel with that index.
    pub fn pixel_position(&self, pixel_index: u32) -> (r: Option<PixelPosition>)
        ensures
            r == (if pixel_index < self.config.width * self.config.height {
                Some(self.position(pixel_index))
            } else {
                None
            }),
            r matches Some(place) ==> {
                &&& place.col < self.config.width
                &&& place.row < self.config.height
                &&& pixel_index == place.row * self.config.width + place.col
                &&& place.rise + place.row + 1 == self.config.height
            },
    {
        let width = self.config.width;
        let height = self.config.height;
        if width == 0 {
            assert(width * height == 0) by (nonlinear_arith)
                requires
                    width == 0,
            ;
            return None;
        }
        let row = pixel_index / width;
        if row >= height {
            proof {
                let w = width as int;
                let h = height as int;
                let i = pixel_index as int;
                lemma_split(i, w);
                assert(i >= w * h) by (nonlinear_arith)
                    requires
                        w > 0,
                        i / w >= h,
                        i == w * (i / w) + i % w,
                        0 <= i % w,
                {
                    assert(w * (i / w) >= w * h);
                }
            }
            return None;
        }
        let col = pixel_index % width;
        proof {
            let w = width as int;
            let h = height as int;
            let i = pixel_index as int;
            lemma_split(i, w);
            assert(i < w * h) by (nonlinear_arith)
                requires
                    w > 0,
                    0 <= i / w < h,
                    i == w * (i / w) + i % w,
                    0 <= i % w < w,
            {
                assert(w * (i / w) <= w * (h - 1));
            }
            lemma_place(i, w, h);
        }
        Some(PixelPosition { col, row, rise: height - 1 - row })
    }

    /// The image made of the rendered pixels, written in the order given:
    /// black where none was written, and `None` if an image of the
    /// configured size cannot be held. A rendered pixel outside the image is
    /// passed over.
    pub fn render(&self, pixels: &Vec<Rendered>) -> (r: Option<Raster>)
        ensures
            r.is_some() == Raster::fits(self.config.width, self.config.height),
            r matches Some(image) ==> {
                &&& image.spec_width() == self.config.width
                &&& image.spec_height() == self.config.height
                &&& forall|x: u32, y: u32|
                    x < self.config.width && y < self.config.height ==> #[trigger] image.at(x, y)
                        == painted(pixels@, x, y)
            },
    {
        let width = self.config.width;
        let height = self.config.height;
        let mut output_image = match Raster::new(width, height) {
            Some(image) => image,
            None => {
                return None;
            },
        };
        let mut k: usize = 0;
        proof {
            assert(pixels@.take(0) =~= Seq::empty());
        }
        while k < pixels.len()
            invariant
                k <= pixels.len(),
                output_image.spec_width() == width,
                output_image.spec_height() == height,
                forall|x: u32, y: u32|
                    x < width && y < height ==> #[trigger] output_image.at(x, y) == painted(
                        pixels@.take(k as int),
                        x,
                        y,
                    ),
            decreases pixels.len() - k,
        {
            let (x, y, color) = pixels[k];
            let ghost before = output_image;
            let done = output_image.put_pixel(x, y, color);
            proof {
                let now = pixels@.take(k + 1);
                assert(now.drop_last() =~= pixels@.take(k as int));
                assert(now.last() == pixels@[k as int]);
                assert forall|a: u32, b: u32| a < width && b < height implies #[trigger] output_image.at(
                    a,
                    b,
                ) == painted(now, a, b) by {
                    assert(before.at(a, b) == painted(pixels@.take(k as int), a, b));
                    if a == x && b == y {
                        assert(done);
                    } else {
                        assert((a, b) != (x, y));
                    }
                }
            }
            k = k + 1;
        }
        proof {
            assert(pixels@.take(pixels.len() as int) =~= pixels@);
        }
        Some(output_image)
    }
}

} // verus!
