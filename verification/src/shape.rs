//! Shapes: the instances of the canonical primitives that a scene places in
//! the world, each with its own material and transformation.

use vstd::prelude::*;
use std::sync::Arc;
use crate::intersection::Intersection;
use crate::primitive::{Primitive, Probe, Ray};
use crate::scalar::Scalar;
use crate::scene::{Material, ParsedShape, Primitives, PrimitiveType};
use crate::vector::Mat4;

verus! {

/// `Arc::clone`: another handle to the same primitive.
#[verifier::external_body]
fn share(primitive: &Arc<Primitive>) -> (r: Arc<Primitive>)
    ensures
        r == *primitive,
{
    Arc::clone(primitive)
}

/// One instance of a primitive, placed in the world.
#[derive(Debug)]
pub struct Shape {
    /// The primitive that this is an instance of, shared with every other
    /// shape of the kind.
    pub primitive: Arc<Primitive>,
    /// The material of this shape.
    pub material: Material,
    /// The cumulative transformation from the shape's object space to the
    /// world.
    pub ctm: Mat4,
}

/// Whether a transformation with a given determinant has no inverse: the
/// determinant is zero, or no number.
pub open spec fn singular(determinant: Scalar) -> bool {
    determinant.zero() || determinant.nan()
}

/// Whether a transformation with a given determinant has no inverse.
pub fn is_singular(determinant: Scalar) -> (r: bool)
    ensures
        r == singular(determinant),
{
    determinant.is_zero() || determinant.is_nan()
}

impl Shape {
    /// The nearest strike of a ray on the shape: none if the shape's
    /// transformation has no inverse, so that there is no ray in object
    /// space; else that on its primitive, with the shape's material.
    pub open spec fn hit(
        &self,
        determinant: Scalar,
        object_space_ray: Option<Ray>,
        probes: Seq<Probe>,
    ) -> Option<Intersection> {
        if singular(determinant) {
            None
        } else {
            match object_space_ray {
                None => None,
                Some(ray) => match self.primitive.hit(ray, probes) {
                    Some(strike) => Some(
                        Intersection { component_intersection: strike, material: &self.material },
                    ),
                    None => None,
                },
            }
        }
    }

    /// The shape that a scene description asks for: the canonical primitive
    /// of its kind, a copy of its material, and the given transformation.
    pub fn from_parsed_shape(parsed_shape: &ParsedShape, primitives: &Primitives, ctm: Mat4) -> (r:
        Shape)
        ensures
            r.primitive == primitives.of(parsed_shape.primitive_type),
            r.material == parsed_shape.material,
            r.ctm == ctm,
    {
        let primitive = share(
            match parsed_shape.primitive_type {
                PrimitiveType::Cone => &primitives.cone,
                PrimitiveType::Cube => &primitives.cube,
                PrimitiveType::Sphere => &primitives.sphere,
                PrimitiveType::Cylinder => &primitives.cylinder,
            },
        );
        Shape { primitive, material: parsed_shape.material.clone(), ctm }
    }

    /// The nearest strike of a ray on the shape, if there is one.
    ///
    /// `determinant` is the determinant of the shape's transformation. A
    /// transformation whose determinant is zero, or no number, has no
    /// inverse: the shape is then struck by no ray, whatever else is handed
    /// in. `object_space_ray` is the world ray brought into the shape's
    /// object space by the inverse of the transformation, its direction not
    /// renormalised, so that the ray parameter means the same in both
    /// spaces; it is `None` where the caller found no inverse, and then too
    /// there is no strike. `probes` holds what was measured of that ray for
    /// each component of the primitive, in the components' order.
    ///
    /// The normal of the strike is the one in object space: the caller
    /// carries it to the world by the inverse transpose of the
    /// transformation's linear part.
    pub fn intersect(
        &self,
        determinant: Scalar,
        object_space_ray: Option<&Ray>,
        probes: &Vec<Probe>,
    ) -> (r: Option<Intersection<'_>>)
        ensures
            r == self.hit(
                determinant,
                match object_space_ray {
                    Some(ray) => Some(*ray),
                    None => None,
                },
                probes@,
            ),
            singular(determinant) ==> r.is_none(),
            object_space_ray.is_none() ==> r.is_none(),
            r matches Some(hit) ==> hit.material == self.material && (Scalar { bits: 0 }).at_most(
                hit.component_intersection.t,
            ),
    {
        if is_singular(determinant) {
            return None;
        }
        match object_space_ray {
            None => None,
            Some(ray) => match self.primitive.intersect(ray, probes) {
                Some(component_intersection) => Some(
                    Intersection { component_intersection, material: &self.material },
                ),
                None => None,
            },
        }
    }
}

/// The names of the texture files that a list of shapes needs: the file
/// name of each shape's texture, in the order of the shapes, each name once.
pub open spec fn needed_textures(shapes: Seq<Shape>) -> Seq<Seq<char>>
    decreases shapes.len(),
{
    if shapes.len() == 0 {
        Seq::empty()
    } else {
        let front = needed_textures(shapes.drop_last());
        match shapes.last().material.texture {
            Some(texture) => if front.contains(texture.filename@) {
                front
            } else {
                front.push(texture.filename@)
            },
            None => front,
        }
    }
}

/// Whether some shape of a list has a texture with a given file name.
pub open spec fn uses_texture(shapes: Seq<Shape>, name: Seq<char>) -> bool {
    exists|k: int|
        0 <= k < shapes.len() && (#[trigger] shapes[k]).material.texture.is_some()
            && shapes[k].material.texture.unwrap().filename@ == name
}

/// The texts of a list of strings.
pub open spec fn texts(names: Seq<String>) -> Seq<Seq<char>> {
    Seq::new(names.len(), |k: int| names[k]@)
}

/// What `needed_textures` lists: every texture of the shapes, nothing else,
/// and nothing twice.
pub proof fn lemma_needed_textures(shapes: Seq<Shape>)
    ensures
        forall|k: int|
            0 <= k < shapes.len() && (#[trigger] shapes[k]).material.texture.is_some()
                ==> needed_textures(shapes).contains(
                shapes[k].material.texture.unwrap().filename@,
            ),
        forall|i: int|
            0 <= i < needed_textures(shapes).len() ==> uses_texture(
                shapes,
                #[trigger] needed_textures(shapes)[i],
            ),
        forall|i: int, j: int|
            0 <= i < j < needed_textures(shapes).len() ==> needed_textures(shapes)[i]
                != needed_textures(shapes)[j],
    decreases shapes.len(),
{
    if shapes.len() > 0 {
        let front = shapes.drop_last();
        let names = needed_textures(front);
        lemma_needed_textures(front);
        assert(forall|k: int| 0 <= k < front.len() ==> front[k] == shapes[k]);
        let all = needed_textures(shapes);
        assert forall|k: int|
            0 <= k < shapes.len() && (#[trigger] shapes[k]).material.texture.is_some() implies all.contains(
            shapes[k].material.texture.unwrap().filename@,
        ) by {
            let name = shapes[k].material.texture.unwrap().filename@;
            if k < front.len() {
                assert(front[k] == shapes[k]);
                let i = choose|i: int| 0 <= i < names.len() && names[i] == name;
                assert(all[i] == name);
            } else if names.contains(name) {
            } else {
                assert(all[names.len() as int] == name);
            }
        }
        assert forall|i: int| 0 <= i < all.len() implies uses_texture(shapes, #[trigger] all[i]) by {
            if i < names.len() {
                assert(uses_texture(front, names[i]));
                let k = choose|k: int|
                    0 <= k < front.len() && (#[trigger] front[k]).material.texture.is_some()
                        && front[k].material.texture.unwrap().filename@ == names[i];
                assert(shapes[k] == front[k]);
            } else {
                assert(shapes[shapes.len() - 1].material.texture.is_some());
            }
        }
    }
}

/// Lists the texture files that the shapes of a scene need, so that each
/// is read once.
pub fn texture_files(shapes: &Vec<Shape>) -> (r: Vec<String>)
    ensures
        texts(r@) == needed_textures(shapes@),
{
    let mut names: Vec<String> = Vec::new();
    let mut k: usize = 0;
    proof {
        assert(shapes@.take(0) =~= Seq::empty());
        assert(texts(names@) =~= needed_textures(shapes@.take(0)));
    }
    while k < shapes.len()
        invariant
            k <= shapes.len(),
            texts(names@) == needed_textures(shapes@.take(k as int)),
        decreases shapes.len() - k,
    {
        proof {
            assert(shapes@.take(k + 1).drop_last() =~= shapes@.take(k as int));
            assert(shapes@.take(k + 1).last() == shapes@[k as int]);
        }
        match &shapes[k].material.texture {
            Some(texture) => {
                let mut known = false;
                let mut i: usize = 0;
                while i < names.len()
                    invariant
                        i <= names.len(),
                        known == exists|j: int|
                            0 <= j < i && texts(names@)[j] == texture.filename@,
                    decreases names.len() - i,
                {
                    if names[i] == texture.filename {
                        known = true;
                        assert(texts(names@)[i as int] == texture.filename@);
                    }
                    i = i + 1;
                }
                if !known {
                    let ghost before = texts(names@);
                    names.push(texture.filename.clone());
                    assert(texts(names@) =~= before.push(texture.filename@));
                }
            },
            None => {},
        }
        k = k + 1;
    }
    proof {
        assert(shapes@.take(shapes.len() as int) =~= shapes@);
    }
    names
}

} // verus!
