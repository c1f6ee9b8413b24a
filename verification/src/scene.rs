//! The scene: spheres and the materials that they point to by index.

use crate::scalar::{Double, HALF, ONE, ZERO};
use crate::utils::{f64_in_range, in_unit_cube, random_color, random_f64};
use crate::vec3::Vec3;
use vstd::prelude::*;

verus! {

/// -2.0
pub const MINUS_TWO: u64 = 0xC000_0000_0000_0000;

/// 4.0
pub const FOUR: u64 = 0x4010_0000_0000_0000;

/// -4.0
pub const MINUS_FOUR: u64 = 0xC010_0000_0000_0000;

/// 100.0
pub const HUNDRED: u64 = 0x4059_0000_0000_0000;

/// -101.0
pub const MINUS_HUNDRED_ONE: u64 = 0xC059_4000_0000_0000;

/// 1000.0
pub const THOUSAND: u64 = 0x408F_4000_0000_0000;

/// -1000.0
pub const MINUS_THOUSAND: u64 = 0xC08F_4000_0000_0000;

/// 0.1
pub const TENTH: u64 = 0x3FB9_9999_9999_999A;

/// 0.2
pub const FIFTH: u64 = 0x3FC9_9999_9999_999A;

/// 0.3
pub const THREE_TENTHS: u64 = 0x3FD3_3333_3333_3333;

/// 0.4
pub const TWO_FIFTHS: u64 = 0x3FD9_9999_9999_999A;

/// 0.6
pub const THREE_FIFTHS: u64 = 0x3FE3_3333_3333_3333;

/// 0.7
pub const SEVEN_TENTHS: u64 = 0x3FE6_6666_6666_6666;

/// 0.8
pub const FOUR_FIFTHS: u64 = 0x3FE9_9999_9999_999A;

/// 0.9
pub const NINE_TENTHS: u64 = 0x3FEC_CCCC_CCCC_CCCD;

/// 0.95
pub const NINETEEN_TWENTIETHS: u64 = 0x3FEE_6666_6666_6666;

/// 1.5, the refractive index of glass.
pub const GLASS: u64 = 0x3FF8_0000_0000_0000;

/// How a surface answers light.
///
/// A material with `glass` set refracts and reflects by `refraction_index`.
/// Any other mirrors the ray at a normal that `roughness` perturbs: 0 is a
/// mirror, 1 scatters as a matt surface does.
#[derive(Clone, Copy, PartialEq, Eq, Structural, Debug)]
pub struct Material {
    pub albedo: Vec3,
    pub roughness: Double,
    pub metallic: Double,
    pub glass: bool,
    pub refraction_index: Double,
}

/// A sphere and the index of its material in the scene.
#[derive(Clone, Copy, PartialEq, Eq, Structural, Debug)]
pub struct Sphere {
    pub center: Vec3,
    pub radius: Double,
    pub material_index: usize,
}

/// The spheres and materials of a scene.
pub struct Scene {
    pub spheres: Vec<Sphere>,
    pub materials: Vec<Material>,
}

/// The first thing that is wrong with a scene.
#[derive(Clone, Copy, PartialEq, Eq, Structural, Debug)]
pub enum SceneError {
    /// The sphere of this index has a radius that is not above zero.
    Radius(usize),
    /// The sphere of this index points to a material that the scene lacks.
    MaterialIndex(usize),
    /// The material of this index has a roughness outside `[0, 1]`.
    Roughness(usize),
    /// The material of this index has a refractive index that is not 1 or
    /// more.
    RefractionIndex(usize),
}

impl Material {
    /// White, matt, no glass.
    pub open spec fn spec_default() -> Material {
        Material {
            albedo: Vec3::from_bits(ONE, ONE, ONE),
            roughness: Double { bits: ONE },
            metallic: Double { bits: ZERO },
            glass: false,
            refraction_index: Double { bits: ONE },
        }
    }

    /// A material that is no glass, of the given colour and roughness.
    pub open spec fn spec_opaque(albedo: Vec3, roughness: Double) -> Material {
        Material { albedo, roughness, ..Material::spec_default() }
    }

    /// Clear glass of the given refractive index.
    pub open spec fn spec_dielectric(refraction_index: Double) -> Material {
        Material { glass: true, refraction_index, ..Material::spec_default() }
    }

    /// The roughness lies in `[0, 1]`.
    pub open spec fn spec_roughness_in_range(&self) -> bool {
        Double { bits: ZERO }.le(self.roughness) && self.roughness.le(Double { bits: ONE })
    }

    /// The refractive index is 1 or more.
    pub open spec fn spec_refraction_in_range(&self) -> bool {
        Double { bits: ONE }.le(self.refraction_index)
    }

    /// Roughness and refractive index lie in their ranges.
    pub open spec fn is_valid(&self) -> bool {
        self.spec_roughness_in_range() && self.spec_refraction_in_range()
    }

    /// A material that is no glass, of the given colour and roughness.
    #[verifier::when_used_as_spec(spec_opaque)]
    pub fn opaque(albedo: Vec3, roughness: Double) -> (r: Material)
        ensures
            r == Material::spec_opaque(albedo, roughness),
    {
        Material {
            albedo,
            roughness,
            metallic: Double::from_bits(ZERO),
            glass: false,
            refraction_index: Double::from_bits(ONE),
        }
    }

    /// Clear glass of the given refractive index.
    #[verifier::when_used_as_spec(spec_dielectric)]
    pub fn dielectric(refraction_index: Double) -> (r: Material)
        ensures
            r == Material::spec_dielectric(refraction_index),
    {
        Material {
            albedo: Vec3::from_bits(ONE, ONE, ONE),
            roughness: Double::from_bits(ONE),
            metallic: Double::from_bits(ZERO),
            glass: true,
            refraction_index,
        }
    }

    /// Whether the roughness lies in `[0, 1]`.
    #[verifier::when_used_as_spec(spec_roughness_in_range)]
    pub fn roughness_in_range(&self) -> (r: bool)
        ensures
            r == self.spec_roughness_in_range(),
    {
        Double::from_bits(ZERO).le(self.roughness) && self.roughness.le(Double::from_bits(ONE))
    }

    /// Whether the refractive index is 1 or more.
    #[verifier::when_used_as_spec(spec_refraction_in_range)]
    pub fn refraction_in_range(&self) -> (r: bool)
        ensures
            r == self.spec_refraction_in_range(),
    {
        Double::from_bits(ONE).le(self.refraction_index)
    }
}

impl Default for Material {
    fn default() -> (r: Self)
        ensures
            r == Material::spec_default(),
    {
        Material {
            albedo: Vec3::from_bits(ONE, ONE, ONE),
            roughness: Double::from_bits(ONE),
            metallic: Double::from_bits(ZERO),
            glass: false,
            refraction_index: Double::from_bits(ONE),
        }
    }
}

impl Sphere {
    /// The radius is above zero.
    pub open spec fn spec_radius_is_positive(&self) -> bool {
        Double { bits: ZERO }.lt(self.radius)
    }

    /// The sphere around `center` with the material of the given index.
    pub fn new(center: Vec3, radius: Double, material_index: usize) -> (r: Sphere)
        ensures
            r == (Sphere { center, radius, material_index }),
    {
        Sphere { center, radius, material_index }
    }

    /// The radius.
    pub fn radius(&self) -> (r: Double)
        ensures
            r == self.radius,
    {
        self.radius
    }

    /// The center.
    pub fn center(&self) -> (r: &Vec3)
        ensures
            *r == self.center,
    {
        &self.center
    }

    /// The index of the material in the scene.
    pub fn material_index(&self) -> (r: usize)
        ensures
            r == self.material_index,
    {
        self.material_index
    }

    /// Whether the radius is above zero.
    #[verifier::when_used_as_spec(spec_radius_is_positive)]
    pub fn radius_is_positive(&self) -> (r: bool)
        ensures
            r == self.spec_radius_is_positive(),
    {
        Double::from_bits(ZERO).lt(self.radius)
    }
}

/// The two spheres of the scene that [`Scene::new`] builds: one of radius 1
/// before the eye, and a large one below it for the ground.
pub open spec fn initial_spheres() -> Seq<Sphere> {
    seq![
        Sphere { center: Vec3::from_bits(ZERO, ZERO, MINUS_TWO), radius: Double { bits: ONE }, material_index: 0 },
        Sphere {
            center: Vec3::from_bits(ZERO, MINUS_HUNDRED_ONE, MINUS_TWO),
            radius: Double { bits: HUNDRED },
            material_index: 1,
        },
    ]
}

/// The two materials of the scene that [`Scene::new`] builds: a magenta
/// mirror and a blue that is nearly one.
pub open spec fn initial_materials() -> Seq<Material> {
    seq![
        Material::spec_opaque(Vec3::from_bits(ONE, ZERO, ONE), Double { bits: ZERO }),
        Material::spec_opaque(Vec3::from_bits(FIFTH, THREE_TENTHS, ONE), Double { bits: TENTH }),
    ]
}

impl Scene {
    /// Every sphere points to a material of the scene.
    pub open spec fn wf(&self) -> bool {
        forall|i: int|
            0 <= i < self.spheres@.len() ==> (#[trigger] self.spheres@[i]).material_index
                < self.materials@.len()
    }

    /// The sphere of index `i` has a radius above zero and a material of the
    /// scene.
    pub open spec fn sphere_is_valid(&self, i: int) -> bool {
        self.spheres@[i].spec_radius_is_positive() && self.spheres@[i].material_index
            < self.materials@.len()
    }

    /// The scene is well formed, every radius is above zero, and every
    /// material has its numbers in range.
    pub open spec fn is_valid(&self) -> bool {
        &&& forall|i: int| 0 <= i < self.spheres@.len() ==> self.sphere_is_valid(i)
        &&& forall|k: int|
            0 <= k < self.materials@.len() ==> (#[trigger] self.materials@[k]).is_valid()
    }

    /// What [`Scene::validate`] returns: the first failing test, taking the
    /// spheres in order and then the materials.
    pub open spec fn is_first_fault(&self, r: Result<(), SceneError>) -> bool {
        match r {
            Ok(_) => self.is_valid(),
            Err(SceneError::Radius(i)) => {
                &&& i < self.spheres@.len()
                &&& forall|j: int| 0 <= j < i ==> self.sphere_is_valid(j)
                &&& !self.spheres@[i as int].spec_radius_is_positive()
            },
            Err(SceneError::MaterialIndex(i)) => {
                &&& i < self.spheres@.len()
                &&& forall|j: int| 0 <= j < i ==> self.sphere_is_valid(j)
                &&& self.spheres@[i as int].spec_radius_is_positive()
                &&& self.spheres@[i as int].material_index >= self.materials@.len()
            },
            Err(SceneError::Roughness(k)) => {
                &&& forall|i: int| 0 <= i < self.spheres@.len() ==> self.sphere_is_valid(i)
                &&& k < self.materials@.len()
                &&& forall|j: int| 0 <= j < k ==> (#[trigger] self.materials@[j]).is_valid()
                &&& !self.materials@[k as int].spec_roughness_in_range()
            },
            Err(SceneError::RefractionIndex(k)) => {
                &&& forall|i: int| 0 <= i < self.spheres@.len() ==> self.sphere_is_valid(i)
                &&& k < self.materials@.len()
                &&& forall|j: int| 0 <= j < k ==> (#[trigger] self.materials@[j]).is_valid()
                &&& self.materials@[k as int].spec_roughness_in_range()
                &&& !self.materials@[k as int].spec_refraction_in_range()
            },
        }
    }

    /// The scene of two spheres to start from.
    pub fn new() -> (r: Scene)
        ensures
            r.spheres@ == initial_spheres(),
            r.materials@ == initial_materials(),
            r.wf(),
    {
        let mut spheres: Vec<Sphere> = Vec::new();
        spheres.push(Sphere::new(Vec3::from_bits(ZERO, ZERO, MINUS_TWO), Double::from_bits(ONE), 0));
        spheres.push(
            Sphere::new(
                Vec3::from_bits(ZERO, MINUS_HUNDRED_ONE, MINUS_TWO),
                Double::from_bits(HUNDRED),
                1,
            ),
        );
        let mut materials: Vec<Material> = Vec::new();
        materials.push(Material::opaque(Vec3::from_bits(ONE, ZERO, ONE), Double::from_bits(ZERO)));
        materials.push(
            Material::opaque(Vec3::from_bits(FIFTH, THREE_TENTHS, ONE), Double::from_bits(TENTH)),
        );
        assert(spheres@ =~= initial_spheres());
        assert(materials@ =~= initial_materials());
        Scene { spheres, materials }
    }

    /// The scene of the given spheres and materials, or the first thing that
    /// is wrong with them.
    pub fn from_parts(spheres: Vec<Sphere>, materials: Vec<Material>) -> (r: Result<
        Scene,
        SceneError,
    >)
        ensures
            match r {
                Ok(scene) => scene.spheres@ == spheres@ && scene.materials@ == materials@
                    && scene.is_valid() && scene.wf(),
                Err(e) => (Scene { spheres, materials }).is_first_fault(Err(e)),
            },
    {
        let scene = Scene { spheres, materials };
        match scene.validate() {
            Ok(_) => Ok(scene),
            Err(e) => Err(e),
        }
    }

    /// Adds a material and returns its index.
    pub fn add_material(&mut self, material: Material) -> (r: usize)
        ensures
            r == old(self).materials@.len(),
            final(self).materials@ == old(self).materials@.push(material),
            final(self).spheres@ == old(self).spheres@,
            old(self).wf() ==> final(self).wf(),
    {
        self.materials.push(material);
        self.materials.len() - 1
    }

    /// Adds a sphere and returns its index.
    pub fn add_sphere(&mut self, sphere: Sphere) -> (r: usize)
        ensures
            r == old(self).spheres@.len(),
            final(self).spheres@ == old(self).spheres@.push(sphere),
            final(self).materials@ == old(self).materials@,
            old(self).wf() && sphere.material_index < old(self).materials@.len()
                ==> final(self).wf(),
    {
        self.spheres.push(sphere);
        self.spheres.len() - 1
    }

    /// Whether every sphere points to a material of the scene.
    pub fn is_well_formed(&self) -> (r: bool)
        ensures
            r == self.wf(),
    {
        let mut i: usize = 0;
        while i < self.spheres.len()
            invariant
                i <= self.spheres@.len(),
                forall|j: int|
                    0 <= j < i ==> (#[trigger] self.spheres@[j]).material_index
                        < self.materials@.len(),
            decreases self.spheres@.len() - i,
        {
            if self.spheres[i].material_index >= self.materials.len() {
                return false;
            }
            i += 1;
        }
        true
    }

    /// Tests the spheres in order, each for its radius and then its
    /// material, and then the materials in order, each for its roughness and
    /// then its refractive index. The first test that fails is the error.
    pub fn validate(&self) -> (r: Result<(), SceneError>)
        ensures
            self.is_first_fault(r),
            r.is_ok() ==> self.wf(),
    {
        let mut i: usize = 0;
        while i < self.spheres.len()
            invariant
                i <= self.spheres@.len(),
                forall|j: int| 0 <= j < i ==> self.sphere_is_valid(j),
            decreases self.spheres@.len() - i,
        {
            if !self.spheres[i].radius_is_positive() {
                return Err(SceneError::Radius(i));
            }
            if self.spheres[i].material_index >= self.materials.len() {
                return Err(SceneError::MaterialIndex(i));
            }
            i += 1;
        }
        let mut k: usize = 0;
        while k < self.materials.len()
            invariant
                k <= self.materials@.len(),
                forall|j: int| 0 <= j < self.spheres@.len() ==> self.sphere_is_valid(j),
                forall|j: int| 0 <= j < k ==> (#[trigger] self.materials@[j]).is_valid(),
            decreases self.materials@.len() - k,
        {
            if !self.materials[k].roughness_in_range() {
                return Err(SceneError::Roughness(k));
            }
            if !self.materials[k].refraction_in_range() {
                return Err(SceneError::RefractionIndex(k));
            }
            k += 1;
        }
        assert forall|j: int| 0 <= j < self.spheres@.len() implies (
        #[trigger] self.spheres@[j]).material_index < self.materials@.len() by {
            assert(self.sphere_is_valid(j));
        }
        Ok(())
    }
}

/// The ground of the large scene: a grey matt sphere of radius 1000.
pub open spec fn ground() -> (Sphere, Material) {
    (
        Sphere {
            center: Vec3::from_bits(ZERO, MINUS_THOUSAND, ZERO),
            radius: Double { bits: THOUSAND },
            material_index: 2,
        },
        Material::spec_opaque(Vec3::from_bits(HALF, HALF, HALF), Double { bits: ONE }),
    )
}

/// The three large spheres of the large scene: glass in the middle, a
/// matt brown behind and a bright mirror before it.
pub open spec fn landmarks(first_index: usize) -> Seq<(Sphere, Material)> {
    seq![
        (
            Sphere {
                center: Vec3::from_bits(ZERO, ONE, ZERO),
                radius: Double { bits: ONE },
                material_index: first_index,
            },
            Material::spec_dielectric(Double { bits: GLASS }),
        ),
        (
            Sphere {
                center: Vec3::from_bits(MINUS_FOUR, ONE, ZERO),
                radius: Double { bits: ONE },
                material_index: (first_index + 1) as usize,
            },
            Material::spec_opaque(Vec3::from_bits(TWO_FIFTHS, FIFTH, TENTH), Double { bits: ONE }),
        ),
        (
            Sphere {
                center: Vec3::from_bits(FOUR, ONE, ZERO),
                radius: Double { bits: ONE },
                material_index: (first_index + 2) as usize,
            },
            Material::spec_opaque(
                Vec3::from_bits(SEVEN_TENTHS, THREE_FIFTHS, HALF),
                Double { bits: ZERO },
            ),
        ),
    ]
}

/// A small sphere of the large scene: of radius 0.2, resting on the ground,
/// matt or of metal or of glass.
pub open spec fn is_pebble(sphere: Sphere, material: Material) -> bool {
    &&& sphere.radius == Double { bits: FIFTH }
    &&& sphere.center.y == Double { bits: FIFTH }
    &&& material.metallic == Double { bits: ZERO }
    &&& material.refraction_index == if material.glass {
        Double { bits: GLASS }
    } else {
        Double { bits: ONE }
    }
}

/// What holds of every scene that [`hittable_scene`] builds: each sphere
/// has a material of its own, at its own index; the two spheres of
/// [`Scene::new`] and the ground come first, the three landmarks last, and
/// between them lie at most 484 pebbles.
pub open spec fn is_hittable_scene(world: &Scene) -> bool {
    let n = world.spheres@.len();
    &&& world.materials@.len() == n
    &&& 6 <= n <= 490
    &&& forall|i: int| 0 <= i < n ==> (#[trigger] world.spheres@[i]).material_index == i
    &&& world.spheres@.subrange(0, 2) == initial_spheres()
    &&& world.materials@.subrange(0, 2) == initial_materials()
    &&& (world.spheres@[2], world.materials@[2]) == ground()
    &&& forall|i: int| 3 <= i < n - 3 ==> is_pebble(#[trigger] world.spheres@[i], world.materials@[i])
    &&& forall|k: int|
        0 <= k < 3 ==> (world.spheres@[n - 3 + k], world.materials@[n - 3 + k]) == (
        #[trigger] landmarks((n - 3) as usize)[k])
}

/// The invariant of the loops of [`hittable_scene`]: the scene so far,
/// with at most `limit` spheres.
pub open spec fn is_growing_scene(world: &Scene, limit: int) -> bool {
    let n = world.spheres@.len();
    &&& world.materials@.len() == n
    &&& 3 <= n <= limit
    &&& forall|i: int| 0 <= i < n ==> (#[trigger] world.spheres@[i]).material_index == i
    &&& world.spheres@.subrange(0, 2) == initial_spheres()
    &&& world.materials@.subrange(0, 2) == initial_materials()
    &&& (world.spheres@[2], world.materials@[2]) == ground()
    &&& forall|i: int| 3 <= i < n ==> is_pebble(#[trigger] world.spheres@[i], world.materials@[i])
}

/// What chance adds to one place of the field of the large scene: a draw
/// for the kind of material, two for the place of the pebble, two colours
/// and a draw for the roughness of a metal. A place draws only what it
/// needs; the draws that it does not need are zero.
pub struct PebbleDraws {
    pub kind: Double,
    pub dx: Double,
    pub dz: Double,
    pub first: Vec3,
    pub second: Vec3,
    pub fuzz: Double,
}

impl PebbleDraws {
    /// Every draw lies in `[0, 1)`.
    pub open spec fn wf(&self) -> bool {
        &&& self.kind.in_unit_interval()
        &&& self.dx.in_unit_interval()
        &&& self.dz.in_unit_interval()
        &&& in_unit_cube(self.first)
        &&& in_unit_cube(self.second)
        &&& self.fuzz.in_unit_interval()
    }
}

/// The center of the pebble at the place `(a, b)` of the field: at height
/// 0.2, up to 0.9 from the corner of the place on x and z.
pub open spec fn pebble_center(a: i32, b: i32, d: &PebbleDraws) -> Vec3 {
    Vec3 {
        x: Double::from_i32(a).add(Double { bits: NINE_TENTHS }.mul(d.dx)),
        y: Double { bits: FIFTH },
        z: Double::from_i32(b).add(Double { bits: NINE_TENTHS }.mul(d.dz)),
    }
}

/// The center lies farther than 0.9 from `(4, 0.2, 0)`, where the mirror
/// touches the ground.
pub open spec fn spec_is_clear_of_the_mirror(center: Vec3) -> bool {
    center.sub(Vec3::from_bits(FOUR, FIFTH, ZERO)).length().gt(Double { bits: NINE_TENTHS })
}

/// The material of a pebble: matt, of the product of two colours, where
/// the draw for the kind is below 0.8; a metal of one colour and a roughness
/// of up to 0.5 where it is below 0.95; else glass.
pub open spec fn pebble_material(d: &PebbleDraws) -> Material {
    if d.kind.lt(Double { bits: FOUR_FIFTHS }) {
        Material::spec_opaque(d.first.mul(d.second), Double { bits: ONE })
    } else if d.kind.lt(Double { bits: NINETEEN_TWENTIETHS }) {
        Material::spec_opaque(
            d.first,
            crate::utils::spec_f64_in_range(Double { bits: ZERO }, Double { bits: HALF }, d.fuzz),
        )
    } else {
        Material::spec_dielectric(Double { bits: GLASS })
    }
}

/// The pebbles of the first places of the field, one place for each entry
/// of `draws`, row by row of 22 places from `(-11, -11)`. A place whose
/// center is not clear of the mirror stays empty. The pebbles come after
/// three other spheres, each with a material of its own.
pub open spec fn field(draws: Seq<PebbleDraws>) -> Seq<(Sphere, Material)>
    decreases draws.len(),
{
    if draws.len() == 0 {
        Seq::empty()
    } else {
        let before = field(draws.drop_last());
        let d = draws.last();
        let k = draws.len() - 1;
        let center = pebble_center((k / 22 - 11) as i32, (k % 22 - 11) as i32, &d);
        if spec_is_clear_of_the_mirror(center) {
            before.push(
                (
                    Sphere {
                        center,
                        radius: Double { bits: FIFTH },
                        material_index: (3 + before.len()) as usize,
                    },
                    pebble_material(&d),
                ),
            )
        } else {
            before
        }
    }
}

/// The two spheres of [`Scene::new`] and the ground.
pub open spec fn foundation() -> Seq<(Sphere, Material)> {
    seq![
        (initial_spheres()[0], initial_materials()[0]),
        (initial_spheres()[1], initial_materials()[1]),
        ground(),
    ]
}

/// The large scene for the given draws: the foundation, the field and the
/// three landmarks.
pub open spec fn large_scene(draws: Seq<PebbleDraws>) -> Seq<(Sphere, Material)> {
    let below = foundation() + field(draws);
    below + landmarks(below.len() as usize)
}

/// The scene holds these spheres, each with its material at its own index.
pub open spec fn scene_holds(world: &Scene, pairs: Seq<(Sphere, Material)>) -> bool {
    &&& world.spheres@.len() == pairs.len()
    &&& world.materials@.len() == pairs.len()
    &&& forall|i: int|
        0 <= i < pairs.len() ==> world.spheres@[i] == (#[trigger] pairs[i]).0
            && world.materials@[i] == pairs[i].1
}

/// Draws for `n` places, each from `[0, 1)`.
pub open spec fn are_pebble_draws(draws: Seq<PebbleDraws>, n: nat) -> bool {
    draws.len() == n && forall|i: int| 0 <= i < n ==> (#[trigger] draws[i]).wf()
}

/// Whether the center lies farther than 0.9 from where the mirror touches
/// the ground.
#[verifier::when_used_as_spec(spec_is_clear_of_the_mirror)]
pub fn is_clear_of_the_mirror(center: Vec3) -> (r: bool)
    ensures
        r == spec_is_clear_of_the_mirror(center),
{
    center.sub(Vec3::from_bits(FOUR, FIFTH, ZERO)).length().gt(Double::from_bits(NINE_TENTHS))
}

/// A large scene: on a ground, a field of 22 by 22 places, each with a
/// pebble of a material drawn by chance unless it lies too close to the
/// mirror, and three large spheres. The scene is [`large_scene`] for some
/// draws.
pub fn hittable_scene() -> (world: Scene)
    ensures
        world.wf(),
        is_hittable_scene(&world),
        exists|draws: Seq<PebbleDraws>|
            are_pebble_draws(draws, 484) && scene_holds(&world, large_scene(draws)),
{
    let mut world = Scene::new();

    let ground_material = world.add_material(
        Material::opaque(Vec3::from_bits(HALF, HALF, HALF), Double::from_bits(ONE)),
    );
    world.add_sphere(
        Sphere::new(
            Vec3::from_bits(ZERO, MINUS_THOUSAND, ZERO),
            Double::from_bits(THOUSAND),
            ground_material,
        ),
    );
    assert(world.spheres@.subrange(0, 2) =~= initial_spheres());
    assert(world.materials@.subrange(0, 2) =~= initial_materials());
    let ghost mut drawn: Seq<PebbleDraws> = Seq::empty();
    assert((foundation() + field(drawn)) =~= foundation());

    let mut a: i32 = -11;
    while a < 11
        invariant
            -11 <= a <= 11,
            is_growing_scene(&world, 3 + (a + 11) * 22),
            are_pebble_draws(drawn, ((a + 11) * 22) as nat),
            scene_holds(&world, foundation() + field(drawn)),
        decreases 11 - a,
    {
        let mut b: i32 = -11;
        while b < 11
            invariant
                -11 <= a < 11,
                -11 <= b <= 11,
                is_growing_scene(&world, 3 + (a + 11) * 22 + (b + 11)),
                are_pebble_draws(drawn, ((a + 11) * 22 + (b + 11)) as nat),
                scene_holds(&world, foundation() + field(drawn)),
            decreases 11 - b,
        {
            let choose_mat = random_f64();
            let dx = random_f64();
            let dz = random_f64();
            let center = Vec3::new(
                Double::from_i32(a).add(Double::from_bits(NINE_TENTHS).mul(dx)),
                Double::from_bits(FIFTH),
                Double::from_i32(b).add(Double::from_bits(NINE_TENTHS).mul(dz)),
            );
            let ghost zero = Vec3::from_bits(ZERO, ZERO, ZERO);
            let ghost mut draws = PebbleDraws {
                kind: choose_mat,
                dx,
                dz,
                first: zero,
                second: zero,
                fuzz: Double { bits: ZERO },
            };
            let ghost earlier = drawn;
            let ghost before = world;

            if is_clear_of_the_mirror(center) {
                let material = if choose_mat.lt(Double::from_bits(FOUR_FIFTHS)) {
                    let first = random_color();
                    let second = random_color();
                    proof {
                        draws = PebbleDraws { first, second, ..draws };
                    }
                    Material::opaque(first.mul(second), Double::from_bits(ONE))
                } else if choose_mat.lt(Double::from_bits(NINETEEN_TWENTIETHS)) {
                    let albedo = random_color();
                    let draw = random_f64();
                    proof {
                        draws = PebbleDraws { first: albedo, fuzz: draw, ..draws };
                    }
                    let fuzz = f64_in_range(Double::from_bits(ZERO), Double::from_bits(HALF), draw);
                    Material::opaque(albedo, fuzz)
                } else {
                    Material::dielectric(Double::from_bits(GLASS))
                };
                let sphere_material = world.add_material(material);
                world.add_sphere(Sphere::new(center, Double::from_bits(FIFTH), sphere_material));
                assert(world.spheres@.subrange(0, 2) =~= before.spheres@.subrange(0, 2));
                assert(world.materials@.subrange(0, 2) =~= before.materials@.subrange(0, 2));
            }
            proof {
                let k = (a + 11) * 22 + (b + 11);
                drawn = earlier.push(draws);
                assert(drawn.drop_last() =~= earlier);
                assert(drawn.last() == draws);
                assert((k / 22 - 11) as i32 == a && (k % 22 - 11) as i32 == b);
                assert(center == pebble_center(a, b, &draws));
                let old_pairs = foundation() + field(earlier);
                let new_pairs = foundation() + field(drawn);
                if spec_is_clear_of_the_mirror(center) {
                    assert(new_pairs =~= old_pairs.push(field(drawn).last()));
                } else {
                    assert(new_pairs =~= old_pairs);
                }
            }
            b += 1;
        }
        a += 1;
    }

    let ghost field_world = world;
    let ghost below = foundation() + field(drawn);
    let material1 = world.add_material(Material::dielectric(Double::from_bits(GLASS)));
    world.add_sphere(Sphere::new(Vec3::from_bits(ZERO, ONE, ZERO), Double::from_bits(ONE), material1));

    let material2 = world.add_material(
        Material::opaque(Vec3::from_bits(TWO_FIFTHS, FIFTH, TENTH), Double::from_bits(ONE)),
    );
    world.add_sphere(
        Sphere::new(Vec3::from_bits(MINUS_FOUR, ONE, ZERO), Double::from_bits(ONE), material2),
    );

    let material3 = world.add_material(
        Material::opaque(Vec3::from_bits(SEVEN_TENTHS, THREE_FIFTHS, HALF), Double::from_bits(ZERO)),
    );
    world.add_sphere(Sphere::new(Vec3::from_bits(FOUR, ONE, ZERO), Double::from_bits(ONE), material3));

    assert(world.spheres@.subrange(0, 2) =~= field_world.spheres@.subrange(0, 2));
    assert(world.materials@.subrange(0, 2) =~= field_world.materials@.subrange(0, 2));
    proof {
        let pairs = large_scene(drawn);
        assert(pairs == below + landmarks(below.len() as usize));
        assert(pairs.len() == below.len() + 3);
        assert forall|i: int| 0 <= i < pairs.len() implies world.spheres@[i] == (#[trigger] pairs[i]).0
            && world.materials@[i] == pairs[i].1 by {
            if i < below.len() {
                assert(pairs[i] == below[i]);
            } else {
                assert(pairs[i] == landmarks(below.len() as usize)[i - below.len()]);
            }
        }
        assert(scene_holds(&world, large_scene(drawn)));
        assert(are_pebble_draws(drawn, 484));
    }
    world
}

} // verus!
