//! Lighting: the three kinds of light source, which of them reach a point,
//! how a spot light falls off, how a surface is shaded, and how intensities
//! and texture coordinates become 8-bit colours.

use vstd::prelude::*;
use crate::Config;
use crate::intersection::Intersection;
use crate::raster::{Raster, Rgb8};
use crate::scalar::{Scalar, ONE_BITS};
use crate::scene::{same_text, Material};
use crate::vector::{Vec3, Vec4};

verus! {

/// The bits of `0.001`: how far from a struck surface a further ray starts,
/// so that it does not strike that surface again at once.
pub const SELF_INTERSECT_OFFSET: u32 = 0x3a83_126f;

/// A light source.
#[derive(Clone, Copy, Debug)]
pub enum Light {
    /// A light that shines from one point in all directions.
    Point { color: Vec4, position: Vec4, attenuation: Vec3 },
    /// A light that shines in one direction from infinitely far away.
    Directional { color: Vec4, direction: Vec4, attenuation: Vec3 },
    /// A light that shines from a point in a cone about a direction: at full
    /// strength up to `angle - penumbra` from the axis, not at all from
    /// `angle` on.
    Spot {
        color: Vec4,
        position: Vec4,
        direction: Vec4,
        attenuation: Vec3,
        penumbra: Scalar,
        angle: Scalar,
    },
}

/// The bits of `3.0`.
pub const THREE_BITS: u32 = 0x4040_0000;

/// What a scene description says of one light: its kind by name, and each
/// property it states.
#[derive(Debug)]
pub struct LightParts {
    /// `"directional"`, `"point"` or `"spot"`; a point light if not stated.
    pub light_type: Option<String>,
    pub color: Option<Vec4>,
    pub direction: Option<Vec4>,
    pub position: Option<Vec4>,
    pub attenuation: Option<Vec3>,
    pub penumbra: Option<Scalar>,
    pub angle: Option<Scalar>,
}

/// Why a light's description is refused.
#[derive(Debug)]
pub enum LightError {
    /// A directional light states a position.
    DirectionalWithPosition,
    /// A directional light states a penumbra.
    DirectionalWithPenumbra,
    /// A directional light states an angle.
    DirectionalWithAngle,
    /// A point light states a direction.
    PointWithDirection,
    /// A point light states a penumbra.
    PointWithPenumbra,
    /// A point light states an angle.
    PointWithAngle,
    /// The kind is none of the three.
    UnknownType,
}

/// The kinds of light.
#[derive(Clone, Copy, Debug, PartialEq, Eq, Structural)]
pub enum LightKind {
    Directional,
    Point,
    Spot,
}

/// The kind of light that a description names: a point light if it names
/// none, and none if the name is not known.
pub open spec fn kind_named(light_type: Option<String>) -> Option<LightKind> {
    match light_type {
        None => Some(LightKind::Point),
        Some(name) => if name@ == "directional"@ {
            Some(LightKind::Directional)
        } else if name@ == "point"@ {
            Some(LightKind::Point)
        } else if name@ == "spot"@ {
            Some(LightKind::Spot)
        } else {
            None
        },
    }
}

/// The colour of a light that states none: white.
pub open spec fn default_color() -> Vec4 {
    let one = Scalar { bits: ONE_BITS };
    Vec4 { x: one, y: one, z: one, w: one }
}

/// The position of a light that states none: `(3, 3, 3)`.
pub open spec fn default_position() -> Vec4 {
    let three = Scalar { bits: THREE_BITS };
    Vec4 { x: three, y: three, z: three, w: Scalar { bits: ONE_BITS } }
}

/// The attenuation of a light that states none: constant one.
pub open spec fn default_attenuation() -> Vec3 {
    let zero = Scalar { bits: 0 };
    Vec3 { x: Scalar { bits: ONE_BITS }, y: zero, z: zero }
}

/// The direction of a light that states none: the zero vector.
pub open spec fn default_direction() -> Vec4 {
    let zero = Scalar { bits: 0 };
    Vec4 { x: zero, y: zero, z: zero, w: zero }
}

/// A stated value, or the default.
pub open spec fn stated<T>(value: Option<T>, default: T) -> T {
    match value {
        Some(v) => v,
        None => default,
    }
}

/// The light that a description gives, or why it gives none. A directional
/// light may state no position, penumbra or angle, a point light no
/// direction, penumbra or angle; the first of these that is stated is the
/// error. What is not stated takes its default; penumbra and angle of a
/// spot light default to zero.
pub open spec fn light_of(parts: LightParts) -> Result<Light, LightError> {
    let color = stated(parts.color, default_color());
    let position = stated(parts.position, default_position());
    let direction = stated(parts.direction, default_direction());
    let attenuation = stated(parts.attenuation, default_attenuation());
    match kind_named(parts.light_type) {
        None => Err(LightError::UnknownType),
        Some(LightKind::Directional) => if parts.position.is_some() {
            Err(LightError::DirectionalWithPosition)
        } else if parts.penumbra.is_some() {
            Err(LightError::DirectionalWithPenumbra)
        } else if parts.angle.is_some() {
            Err(LightError::DirectionalWithAngle)
        } else {
            Ok(Light::Directional { color, direction, attenuation })
        },
        Some(LightKind::Point) => if parts.direction.is_some() {
            Err(LightError::PointWithDirection)
        } else if parts.penumbra.is_some() {
            Err(LightError::PointWithPenumbra)
        } else if parts.angle.is_some() {
            Err(LightError::PointWithAngle)
        } else {
            Ok(Light::Point { color, position, attenuation })
        },
        Some(LightKind::Spot) => Ok(
            Light::Spot {
                color,
                position,
                direction,
                attenuation,
                penumbra: stated(parts.penumbra, Scalar { bits: 0 }),
                angle: stated(parts.angle, Scalar { bits: 0 }),
            },
        ),
    }
}

/// The kind of light that a description names.
pub fn light_kind(light_type: &Option<String>) -> (r: Option<LightKind>)
    ensures
        r == kind_named(*light_type),
{
    match light_type {
        None => Some(LightKind::Point),
        Some(name) => {
            if same_text(name.as_str(), "directional") {
                Some(LightKind::Directional)
            } else if same_text(name.as_str(), "point") {
                Some(LightKind::Point)
            } else if same_text(name.as_str(), "spot") {
                Some(LightKind::Spot)
            } else {
                None
            }
        },
    }
}

/// How much of a light's colour arrives at a point.
#[derive(Clone, Copy, Debug, PartialEq, Eq, Structural)]
pub enum Intensity {
    /// The colour as it is.
    Full,
    /// The colour, weakened over the distance by the light's attenuation
    /// function (at most by the factor one).
    Attenuated,
    /// The colour, weakened over the distance and then by the cubic falloff
    /// `1 - (3x^2 - 2x^3)`, `x` being how far into the penumbra the point
    /// lies, as a fraction of the penumbra's width.
    Penumbra,
    /// Nothing: black.
    Dark,
}

/// Whether a strike at ray parameter `t` on the way to a light hides the
/// light: any strike does if the light is infinitely far away, else one that
/// lies nearer than the light.
pub open spec fn occludes(distance: Option<Scalar>, t: Scalar) -> bool {
    match distance {
        None => true,
        Some(d) => t.below(d),
    }
}

/// Whether a light is seen from a point, given what each shape of the scene
/// reports for the ray from the point toward the light: no strike hides it.
pub open spec fn visible(distance: Option<Scalar>, hits: Seq<Option<Intersection>>) -> bool {
    forall|k: int|
        0 <= k < hits.len() ==> (match #[trigger] hits[k] {
            Some(hit) => !occludes(distance, hit.component_intersection.t),
            None => true,
        })
}

impl Light {
    /// The light that a scene description gives, or why it gives none.
    pub fn from_parts(parts: &LightParts) -> (r: Result<Light, LightError>)
        ensures
            r == light_of(*parts),
    {
        let one = Scalar { bits: ONE_BITS };
        let zero = Scalar { bits: 0 };
        let three = Scalar { bits: THREE_BITS };
        let color = match parts.color {
            Some(v) => v,
            None => Vec4 { x: one, y: one, z: one, w: one },
        };
        let position = match parts.position {
            Some(v) => v,
            None => Vec4 { x: three, y: three, z: three, w: one },
        };
        let direction = match parts.direction {
            Some(v) => v,
            None => Vec4 { x: zero, y: zero, z: zero, w: zero },
        };
        let attenuation = match parts.attenuation {
            Some(v) => v,
            None => Vec3 { x: one, y: zero, z: zero },
        };
        match light_kind(&parts.light_type) {
            None => Err(LightError::UnknownType),
            Some(LightKind::Directional) => {
                if parts.position.is_some() {
                    Err(LightError::DirectionalWithPosition)
                } else if parts.penumbra.is_some() {
                    Err(LightError::DirectionalWithPenumbra)
                } else if parts.angle.is_some() {
                    Err(LightError::DirectionalWithAngle)
                } else {
                    Ok(Light::Directional { color, direction, attenuation })
                }
            },
            Some(LightKind::Point) => {
                if parts.direction.is_some() {
                    Err(LightError::PointWithDirection)
                } else if parts.penumbra.is_some() {
                    Err(LightError::PointWithPenumbra)
                } else if parts.angle.is_some() {
                    Err(LightError::PointWithAngle)
                } else {
                    Ok(Light::Point { color, position, attenuation })
                }
            },
            Some(LightKind::Spot) => {
                let penumbra = match parts.penumbra {
                    Some(v) => v,
                    None => zero,
                };
                let angle = match parts.angle {
                    Some(v) => v,
                    None => zero,
                };
                Ok(Light::Spot { color, position, direction, attenuation, penumbra, angle })
            },
        }
    }

    /// The distance from the light to a point, given the distance that the
    /// caller measured from the light's position. A directional light has no
    /// position, and so no distance.
    pub open spec fn distance(self, measured: Scalar) -> Option<Scalar> {
        match self {
            Light::Directional { .. } => None,
            _ => Some(measured),
        }
    }

    /// The share of the light's colour that arrives at a point.
    /// `angle_to_point` is the angle between the light's axis and the
    /// direction from the light to the point, `inner_angle` the light's
    /// `angle` less its `penumbra`; only a spot light reads either.
    pub open spec fn intensity(self, inner_angle: Scalar, angle_to_point: Scalar) -> Intensity {
        match self {
            Light::Directional { .. } => Intensity::Full,
            Light::Point { .. } => Intensity::Attenuated,
            Light::Spot { angle, .. } => if angle_to_point.at_most(inner_angle) {
                Intensity::Attenuated
            } else if angle.at_most(angle_to_point) {
                Intensity::Dark
            } else {
                Intensity::Penumbra
            },
        }
    }

    /// The distance from the light to a point: `None` for a directional
    /// light, else the distance measured from the light's position.
    pub fn distance_to_point(&self, measured: Scalar) -> (r: Option<Scalar>)
        ensures
            r == self.distance(measured),
    {
        match self {
            Light::Directional { .. } => None,
            _ => Some(measured),
        }
    }

    /// Whether the light is seen from a point: whether a ray from the point
    /// toward the light reaches it without striking a shape first. `hits`
    /// holds what each shape reports for that ray, `measured` the distance
    /// from the light's position to the point.
    pub fn is_visible(&self, measured: Scalar, hits: &Vec<Option<Intersection>>) -> (r: bool)
        ensures
            r == visible(self.distance(measured), hits@),
    {
        let distance = self.distance_to_point(measured);
        let mut k: usize = 0;
        while k < hits.len()
            invariant
                k <= hits.len(),
                distance == self.distance(measured),
                visible(distance, hits@.take(k as int)),
            decreases hits.len() - k,
        {
            let hidden = match &hits[k] {
                None => false,
                Some(hit) => match distance {
                    None => true,
                    Some(d) => hit.component_intersection.t.lt(d),
                },
            };
            if hidden {
                assert(!visible(distance, hits@)) by {
                    assert(hits@[k as int].is_some());
                }
                return false;
            }
            assert forall|j: int| 0 <= j < k + 1 implies (match #[trigger] hits@.take(k + 1)[j] {
                Some(hit) => !occludes(distance, hit.component_intersection.t),
                None => true,
            }) by {
                if j < k {
                    assert(hits@.take(k as int)[j] == hits@.take(k + 1)[j]);
                }
            }
            k = k + 1;
        }
        assert(hits@.take(hits.len() as int) =~= hits@);
        true
    }

    /// The share of the light's colour that arrives at a point. A spot light
    /// is at its attenuated strength up to the inner angle, that included;
    /// dark from its outer angle on, that included; and falls off strictly
    /// in between.
    pub fn intensity_at(&self, inner_angle: Scalar, angle_to_point: Scalar) -> (r: Intensity)
        ensures
            r == self.intensity(inner_angle, angle_to_point),
    {
        match self {
            Light::Directional { .. } => Intensity::Full,
            Light::Point { .. } => Intensity::Attenuated,
            Light::Spot { angle, .. } => {
                if angle_to_point.le(inner_angle) {
                    Intensity::Attenuated
                } else if angle_to_point.ge(*angle) {
                    Intensity::Dark
                } else {
                    Intensity::Penumbra
                }
            },
        }
    }
}

/// What the caller measured for one light at a struck point.
#[derive(Clone, Copy, Debug)]
pub struct LightSample {
    /// Whether the light is seen from the point (`Light::is_visible`); read
    /// only where shadows are enabled.
    pub visible: bool,
    /// The cosine between the surface normal and the direction to the light.
    pub diffuse_angle: Scalar,
    /// The cosine between the light's mirror direction and the direction to
    /// the camera.
    pub specular_angle: Scalar,
}

/// How one light shades a struck point.
#[derive(Clone, Copy, Debug)]
pub struct Shading {
    /// The weight of the diffuse term: the diffuse cosine, or zero if that is
    /// below zero.
    pub diffuse_angle: Scalar,
    /// Whether the diffuse colour blends in a texel of the material's
    /// texture.
    pub textured: bool,
    /// The base of the specular term, to be raised to the material's
    /// shininess; `None` where the specular cosine is below zero and the term
    /// is zero.
    pub specular_base: Option<Scalar>,
}

/// How one light shades a struck point: not at all where shadows are enabled
/// and the light is hidden.
pub open spec fn shade(config: Config, material: Material, sample: LightSample) -> Option<Shading> {
    if config.enable_shadows && !sample.visible {
        None
    } else {
        Some(
            Shading {
                diffuse_angle: sample.diffuse_angle.raised_to_zero(),
                textured: config.enable_texture && material.texture.is_some(),
                specular_base: if sample.specular_angle.below(Scalar { bits: 0 }) {
                    None
                } else {
                    Some(sample.specular_angle)
                },
            },
        )
    }
}

/// How each light of a scene shades a struck point, in the lights' order.
/// The caller turns each shading into a colour and adds them to the ambient
/// term.
pub fn phong(config: &Config, material: &Material, samples: &Vec<LightSample>) -> (r: Vec<
    Option<Shading>,
>)
    ensures
        r@.len() == samples@.len(),
        forall|k: int| 0 <= k < samples@.len() ==> r@[k] == shade(*config, *material, samples@[k]),
{
    let textured = config.enable_texture && material.texture.is_some();
    let mut shadings: Vec<Option<Shading>> = Vec::new();
    let mut k: usize = 0;
    while k < samples.len()
        invariant
            k <= samples.len(),
            shadings@.len() == k,
            textured == (config.enable_texture && material.texture.is_some()),
            forall|j: int| 0 <= j < k ==> shadings@[j] == shade(*config, *material, samples@[j]),
        decreases samples.len() - k,
    {
        let sample = samples[k];
        let shading = if config.enable_shadows && !sample.visible {
            None
        } else {
            let specular_base = if sample.specular_angle.lt(Scalar { bits: 0 }) {
                None
            } else {
                Some(sample.specular_angle)
            };
            Some(
                Shading {
                    diffuse_angle: sample.diffuse_angle.clamp_negative(),
                    textured,
                    specular_base,
                },
            )
        };
        shadings.push(shading);
        k = k + 1;
    }
    shadings
}

/// With no shape in the way of a light, shadows change nothing: the shading
/// with shadows enabled is the shading with shadows disabled.
pub proof fn lemma_shadow_invariance(
    config: Config,
    material: Material,
    light: Light,
    measured: Scalar,
    hits: Seq<Option<Intersection>>,
    sample: LightSample,
)
    requires
        sample.visible == visible(light.distance(measured), hits),
        forall|k: int|
            0 <= k < hits.len() ==> (match #[trigger] hits[k] {
                Some(hit) => !occludes(light.distance(measured), hit.component_intersection.t),
                None => true,
            }),
    ensures
        shade(Config { enable_shadows: true, ..config }, material, sample) == shade(
            Config { enable_shadows: false, ..config },
            material,
            sample,
        ),
{
}

/// The factor by which distance weakens a light, given the reciprocal of
/// the light's attenuation function at that distance: the reciprocal where
/// it is below one, else one, so that no light grows with distance.
pub open spec fn attenuated(reciprocal: Scalar) -> Scalar {
    if reciprocal.below(Scalar { bits: ONE_BITS }) {
        reciprocal
    } else {
        Scalar { bits: ONE_BITS }
    }
}

/// The factor by which distance weakens a light: at most one.
pub fn attenuation_over_distance(reciprocal: Scalar) -> (r: Scalar)
    ensures
        r == attenuated(reciprocal),
        r.at_most(Scalar { bits: ONE_BITS }),
{
    if reciprocal.lt(Scalar { bits: ONE_BITS }) {
        reciprocal
    } else {
        Scalar { bits: ONE_BITS }
    }
}

/// An intensity brought into the range from 0 to 1, before it is scaled to
/// an 8-bit channel: what is below zero, or no number, becomes 0, and what
/// is above one becomes 1.
pub fn clamp_intensity(intensity: Scalar) -> (r: Scalar)
    ensures
        r == intensity.within_unit(),
{
    intensity.clamp_unit()
}

/// The 8-bit colour of three clamped intensities that the caller has scaled
/// by 255: each channel rounded toward zero.
pub fn to_rgb(scaled: &Vec4) -> (r: Rgb8)
    ensures
        r.0 == scaled.x.channel(),
        r.1 == scaled.y.channel(),
        r.2 == scaled.z.channel(),
{
    (scaled.x.truncate_u8(), scaled.y.truncate_u8(), scaled.z.truncate_u8())
}

/// The texel of a texture image for a texture coordinate `(u, v)`.
/// `scaled_u` is `u` times the image's width times the texture's repeat
/// factor across, `scaled_v` is `1 - v` times the image's height times the
/// repeat factor down. Each is rounded toward zero and wraps around the
/// image's size. `None` for an image without pixels.
pub fn uv_lookup(scaled_u: Scalar, scaled_v: Scalar, texture_image: &Raster) -> (r: Option<Rgb8>)
    ensures
        r.is_some() == (texture_image.spec_width() > 0 && texture_image.spec_height() > 0),
        r matches Some(color) ==> color == texture_image.at(
            (scaled_u.truncated() % (texture_image.spec_width() as int)) as u32,
            (scaled_v.truncated() % (texture_image.spec_height() as int)) as u32,
        ),
{
    let width = texture_image.width();
    let height = texture_image.height();
    if width == 0 || height == 0 {
        return None;
    }
    let column = scaled_u.truncate() % width;
    let row = scaled_v.truncate() % height;
    texture_image.get_pixel(column, row)
}

} // verus!
