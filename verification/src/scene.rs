//! What a scene is made of, as far as the tracer's decisions read it:
//! materials, textures, the kinds of shape, and the four canonical
//! primitives that every shape of a kind shares.

use vstd::prelude::*;
use std::sync::Arc;
use crate::primitive::{
    Axis, Circle, ConeBody, CylinderBody, Plane, Primitive, PrimitiveComponent, Probe, Ray,
    Sphere, Square, NEG_HALF_BITS,
};
use crate::scalar::{Scalar, HALF_BITS, ONE_BITS};
use crate::vector::Vec4;

verus! {

/// Whether two texts are the same.
pub fn same_text(text: &str, word: &str) -> (r: bool)
    ensures
        r == (text@ == word@),
{
    text.to_owned() == word.to_owned()
}

/// A raster image laid over a surface.
#[derive(Debug)]
pub struct Texture {
    /// The key under which the decoded image is found.
    pub filename: String,
    /// How often the image repeats across the surface, in each direction.
    pub repeat_u: Scalar,
    pub repeat_v: Scalar,
    /// The weight of the texel against the material's own diffuse colour.
    pub blend: Scalar,
}

impl Clone for Texture {
    fn clone(&self) -> (r: Self)
        ensures
            r == *self,
    {
        Texture {
            filename: self.filename.clone(),
            repeat_u: self.repeat_u,
            repeat_v: self.repeat_v,
            blend: self.blend,
        }
    }
}

/// How a surface answers light.
#[derive(Debug)]
pub struct Material {
    pub ambient: Vec4,
    pub diffuse: Vec4,
    pub specular: Vec4,
    pub shininess: Scalar,
    pub reflective: Vec4,
    pub texture: Option<Texture>,
}

impl Clone for Material {
    fn clone(&self) -> (r: Self)
        ensures
            r == *self,
    {
        let texture = match &self.texture {
            Some(texture) => Some(texture.clone()),
            None => None,
        };
        Material {
            ambient: self.ambient,
            diffuse: self.diffuse,
            specular: self.specular,
            shininess: self.shininess,
            reflective: self.reflective,
            texture,
        }
    }
}

/// What a scene description says of one surface: each property it states.
#[derive(Debug)]
pub struct MaterialParts {
    pub ambient: Option<Vec4>,
    pub diffuse: Option<Vec4>,
    pub specular: Option<Vec4>,
    pub reflective: Option<Vec4>,
    pub shininess: Option<Scalar>,
    /// The texture, whatever its blend.
    pub texture: Option<Texture>,
    /// The weight of the texture, stated apart from it.
    pub blend: Option<Scalar>,
}

/// The material that a description gives: what it does not state is zero,
/// but for the diffuse colour, which is `(1, 1, 1, 0)`; a texture takes the
/// blend stated, or zero.
pub open spec fn material_of(parts: MaterialParts) -> Material {
    let zero = Scalar { bits: 0 };
    let one = Scalar { bits: ONE_BITS };
    let black = Vec4 { x: zero, y: zero, z: zero, w: zero };
    Material {
        ambient: match parts.ambient {
            Some(v) => v,
            None => black,
        },
        diffuse: match parts.diffuse {
            Some(v) => v,
            None => Vec4 { x: one, y: one, z: one, w: zero },
        },
        specular: match parts.specular {
            Some(v) => v,
            None => black,
        },
        shininess: match parts.shininess {
            Some(v) => v,
            None => zero,
        },
        reflective: match parts.reflective {
            Some(v) => v,
            None => black,
        },
        texture: match parts.texture {
            Some(texture) => Some(
                Texture {
                    blend: match parts.blend {
                        Some(v) => v,
                        None => zero,
                    },
                    ..texture
                },
            ),
            None => None,
        },
    }
}

impl Material {
    /// Whether the surface mirrors nothing: its reflective colour is the
    /// zero vector.
    pub open spec fn matte(self) -> bool {
        self.reflective.all_zero()
    }

    /// The material that a scene description gives.
    pub fn from_parts(parts: MaterialParts) -> (r: Material)
        ensures
            r == material_of(parts),
    {
        let zero = Scalar { bits: 0 };
        let one = Scalar { bits: ONE_BITS };
        let black = Vec4 { x: zero, y: zero, z: zero, w: zero };
        let blend = match parts.blend {
            Some(v) => v,
            None => zero,
        };
        let texture = match parts.texture {
            Some(texture) => Some(
                Texture {
                    filename: texture.filename,
                    repeat_u: texture.repeat_u,
                    repeat_v: texture.repeat_v,
                    blend,
                },
            ),
            None => None,
        };
        Material {
            ambient: match parts.ambient {
                Some(v) => v,
                None => black,
            },
            diffuse: match parts.diffuse {
                Some(v) => v,
                None => Vec4 { x: one, y: one, z: one, w: zero },
            },
            specular: match parts.specular {
                Some(v) => v,
                None => black,
            },
            shininess: match parts.shininess {
                Some(v) => v,
                None => zero,
            },
            reflective: match parts.reflective {
                Some(v) => v,
                None => black,
            },
            texture,
        }
    }

    /// Whether the surface mirrors nothing.
    pub fn is_matte(&self) -> (r: bool)
        ensures
            r == self.matte(),
    {
        self.reflective.is_zero()
    }
}

/// The kinds of shape a scene can hold.
#[derive(Clone, Copy, Debug, PartialEq, Eq, Structural)]
pub enum PrimitiveType {
    Cone,
    Cube,
    Cylinder,
    Sphere,
}

impl PrimitiveType {
    /// The kind of shape with a given name, if there is one.
    pub open spec fn named(name: Seq<char>) -> Option<PrimitiveType> {
        if name == "sphere"@ {
            Some(PrimitiveType::Sphere)
        } else if name == "cube"@ {
            Some(PrimitiveType::Cube)
        } else if name == "cylinder"@ {
            Some(PrimitiveType::Cylinder)
        } else if name == "cone"@ {
            Some(PrimitiveType::Cone)
        } else {
            None
        }
    }

    /// The kind of shape with a given name: `"sphere"`, `"cube"`,
    /// `"cylinder"` or `"cone"`.
    pub fn from_name(name: &str) -> (r: Option<PrimitiveType>)
        ensures
            r == Self::named(name@),
    {
        if same_text(name, "sphere") {
            Some(PrimitiveType::Sphere)
        } else if same_text(name, "cube") {
            Some(PrimitiveType::Cube)
        } else if same_text(name, "cylinder") {
            Some(PrimitiveType::Cylinder)
        } else if same_text(name, "cone") {
            Some(PrimitiveType::Cone)
        } else {
            None
        }
    }
}

/// Where a camera looks, as a scene description states it.
#[derive(Clone, Copy, Debug)]
pub enum Aim {
    /// Nothing is stated: the camera keeps the direction it has.
    Unstated,
    /// In a direction.
    Look(Vec4),
    /// At a point: the direction is from the camera's position to the point.
    Focus(Vec4),
}

/// Where a camera looks, given the direction and the point that its
/// description states: `None` if it states both, which is refused.
pub open spec fn aim_of(look: Option<Vec4>, focus: Option<Vec4>) -> Option<Aim> {
    match (look, focus) {
        (Some(_), Some(_)) => None,
        (Some(direction), None) => Some(Aim::Look(direction)),
        (None, Some(point)) => Some(Aim::Focus(point)),
        (None, None) => Some(Aim::Unstated),
    }
}

/// Where a camera looks; `None` if its description states both a direction
/// and a point.
pub fn camera_aim(look: Option<Vec4>, focus: Option<Vec4>) -> (r: Option<Aim>)
    ensures
        r == aim_of(look, focus),
{
    match (look, focus) {
        (Some(_), Some(_)) => None,
        (Some(direction), None) => Some(Aim::Look(direction)),
        (None, Some(point)) => Some(Aim::Focus(point)),
        (None, None) => Some(Aim::Unstated),
    }
}

/// A shape as the scene description gives it: a kind and a material, not yet
/// placed in the world.
#[derive(Debug)]
pub struct ParsedShape {
    pub material: Material,
    pub primitive_type: PrimitiveType,
}

/// The face of the unit cube with a given position among its six faces: the
/// faces come in pairs by axis, in the order X, Y, Z, and in each pair the
/// face at `-0.5` comes before the face at `0.5`.
pub open spec fn cube_face(k: int) -> PrimitiveComponent {
    PrimitiveComponent::Square(
        Square {
            plane: Plane {
                normal_axis: if k / 2 == 0 {
                    Axis::X
                } else if k / 2 == 1 {
                    Axis::Y
                } else {
                    Axis::Z
                },
                elevation: if k % 2 == 0 {
                    Scalar { bits: NEG_HALF_BITS }
                } else {
                    Scalar { bits: HALF_BITS }
                },
            },
        },
    )
}

/// The cap of a cylinder or cone at a given height.
pub open spec fn cap(elevation: u32) -> PrimitiveComponent {
    PrimitiveComponent::Circle(
        Circle { plane: Plane { normal_axis: Axis::Y, elevation: Scalar { bits: elevation } } },
    )
}

/// The components of the unit cube: its six faces.
pub open spec fn cube_components() -> Seq<PrimitiveComponent> {
    Seq::new(6, |k: int| cube_face(k))
}

/// The components of the unit sphere: its one body.
pub open spec fn sphere_components() -> Seq<PrimitiveComponent> {
    seq![PrimitiveComponent::Sphere(Sphere)]
}

/// The components of the unit cylinder: its side, its top and its bottom.
pub open spec fn cylinder_components() -> Seq<PrimitiveComponent> {
    seq![PrimitiveComponent::CylinderBody(CylinderBody), cap(HALF_BITS), cap(NEG_HALF_BITS)]
}

/// The components of the unit cone: its side and its base.
pub open spec fn cone_components() -> Seq<PrimitiveComponent> {
    seq![PrimitiveComponent::ConeBody(ConeBody), cap(NEG_HALF_BITS)]
}

/// The four canonical primitives. Every shape of a scene refers to one of
/// them; none is ever copied or changed.
#[derive(Debug)]
pub struct Primitives {
    pub cube: Arc<Primitive>,
    pub sphere: Arc<Primitive>,
    pub cylinder: Arc<Primitive>,
    pub cone: Arc<Primitive>,
}

impl Primitives {
    /// Whether the four primitives are the canonical ones.
    pub open spec fn canonical(self) -> bool {
        &&& self.cube.components@ == cube_components()
        &&& self.sphere.components@ == sphere_components()
        &&& self.cylinder.components@ == cylinder_components()
        &&& self.cone.components@ == cone_components()
    }

    /// The primitive of a kind of shape.
    pub open spec fn of(self, primitive_type: PrimitiveType) -> Arc<Primitive> {
        match primitive_type {
            PrimitiveType::Cone => self.cone,
            PrimitiveType::Cube => self.cube,
            PrimitiveType::Sphere => self.sphere,
            PrimitiveType::Cylinder => self.cylinder,
        }
    }

    /// Builds the four canonical primitives.
    pub fn new() -> (r: Primitives)
        ensures
            r.canonical(),
    {
        let axes = Axis::iterator();
        let elevations = [Scalar { bits: NEG_HALF_BITS }, Scalar { bits: HALF_BITS }];
        let mut cube_components: Vec<PrimitiveComponent> = Vec::new();
        let mut i: usize = 0;
        while i < 3
            invariant
                i <= 3,
                axes@ == seq![Axis::X, Axis::Y, Axis::Z],
                elevations@ == seq![Scalar { bits: NEG_HALF_BITS }, Scalar { bits: HALF_BITS }],
                cube_components@.len() == 2 * i,
                forall|k: int| 0 <= k < 2 * i ==> cube_components@[k] == cube_face(k),
            decreases 3 - i,
        {
            let normal_axis = axes[i];
            let mut j: usize = 0;
            while j < 2
                invariant
                    i < 3,
                    j <= 2,
                    normal_axis == axes@[i as int],
                    axes@ == seq![Axis::X, Axis::Y, Axis::Z],
                    elevations@ == seq![
                        Scalar { bits: NEG_HALF_BITS },
                        Scalar { bits: HALF_BITS },
                    ],
                    cube_components@.len() == 2 * i + j,
                    forall|k: int| 0 <= k < 2 * i + j ==> cube_components@[k] == cube_face(k),
                decreases 2 - j,
            {
                let elevation = elevations[j];
                cube_components.push(
                    PrimitiveComponent::Square(Square { plane: Plane { normal_axis, elevation } }),
                );
                j = j + 1;
            }
            i = i + 1;
        }
        assert(cube_components@ =~= self::cube_components());
        let sphere_components = vec![PrimitiveComponent::Sphere(Sphere)];
        let cylinder_components = vec![
            PrimitiveComponent::CylinderBody(CylinderBody),
            PrimitiveComponent::Circle(
                Circle { plane: Plane { normal_axis: Axis::Y, elevation: Scalar { bits: HALF_BITS } } },
            ),
            PrimitiveComponent::Circle(
                Circle {
                    plane: Plane { normal_axis: Axis::Y, elevation: Scalar { bits: NEG_HALF_BITS } },
                },
            ),
        ];
        let cone_components = vec![
            PrimitiveComponent::ConeBody(ConeBody),
            PrimitiveComponent::Circle(
                Circle {
                    plane: Plane { normal_axis: Axis::Y, elevation: Scalar { bits: NEG_HALF_BITS } },
                },
            ),
        ];
        assert(sphere_components@ =~= self::sphere_components());
        assert(cylinder_components@ =~= self::cylinder_components());
        assert(cone_components@ =~= self::cone_components());
        Primitives {
            cube: Arc::new(Primitive { components: cube_components }),
            sphere: Arc::new(Primitive { components: sphere_components }),
            cylinder: Arc::new(Primitive { components: cylinder_components }),
            cone: Arc::new(Primitive { components: cone_components }),
        }
    }
}

/// A ray that runs parallel to a pair of the unit cube's faces strikes
/// neither face of the pair, whatever was measured for them: a direction
/// with a zero along an axis gives no strike on the two faces across that
/// axis.
pub proof fn lemma_parallel_ray_misses_face_pair(
    primitives: Primitives,
    ray: Ray,
    axis: Axis,
    probes: Seq<Probe>,
)
    requires
        primitives.canonical(),
        ray.direction.along(axis).zero(),
    ensures
        forall|k: int|
            0 <= k < 6 && cube_face(k)->Square_0.plane.normal_axis == axis
                ==> (#[trigger] primitives.cube.report(ray, probes, k)).is_none(),
{
}

} // verus!
