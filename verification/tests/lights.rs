use rustracer::intersection::{ComponentIntersection, Intersection};
use rustracer::lights::{
    attenuation_over_distance, clamp_intensity, phong, to_rgb, uv_lookup, Intensity, Light,
    LightSample, SELF_INTERSECT_OFFSET,
};
use rustracer::raster::Raster;
use rustracer::scalar::Scalar;
use rustracer::scene::{Material, Texture};
use rustracer::vector::{Vec3, Vec4};
use rustracer::Config;

fn s(x: f32) -> Scalar {
    Scalar::from_bits(x.to_bits())
}

fn f(x: Scalar) -> f32 {
    f32::from_bits(x.bits)
}

fn v(x: f32, y: f32, z: f32, w: f32) -> Vec4 {
    Vec4::new(s(x), s(y), s(z), s(w))
}

fn config(enable_shadows: bool, enable_texture: bool) -> Config {
    Config {
        width: 4,
        height: 3,
        scene: String::from("scene.xml"),
        output: String::from("out.png"),
        textures: String::from("textures"),
        enable_shadows,
        enable_reflections: false,
        enable_texture,
        enable_parallelism: false,
        samples: 1,
    }
}

fn material(texture: Option<Texture>) -> Material {
    Material {
        ambient: v(0.2, 0.3, 0.4, 1.0),
        diffuse: v(1.0, 1.0, 1.0, 1.0),
        specular: v(1.0, 1.0, 1.0, 1.0),
        shininess: s(10.0),
        reflective: v(0.0, 0.0, 0.0, 0.0),
        texture,
    }
}

fn texture() -> Texture {
    Texture { filename: String::from("bricks.png"), repeat_u: s(1.0), repeat_v: s(1.0), blend: s(0.5) }
}

fn point() -> Light {
    Light::Point {
        color: v(1.0, 1.0, 1.0, 1.0),
        position: v(0.0, 5.0, 0.0, 1.0),
        attenuation: Vec3::new(s(1.0), s(0.0), s(0.0)),
    }
}

fn directional() -> Light {
    Light::Directional {
        color: v(1.0, 1.0, 1.0, 1.0),
        direction: v(0.0, -1.0, 0.0, 0.0),
        attenuation: Vec3::new(s(1.0), s(0.0), s(0.0)),
    }
}

fn spot(angle: f32, penumbra: f32) -> Light {
    Light::Spot {
        color: v(1.0, 1.0, 1.0, 1.0),
        position: v(0.0, 5.0, 0.0, 1.0),
        direction: v(0.0, -1.0, 0.0, 0.0),
        attenuation: Vec3::new(s(1.0), s(0.0), s(0.0)),
        penumbra: s(penumbra),
        angle: s(angle),
    }
}

fn hit<'a>(t: f32, material: &'a Material) -> Option<Intersection<'a>> {
    Some(Intersection {
        component_intersection: ComponentIntersection {
            t: s(t),
            normal: v(0.0, 1.0, 0.0, 0.0),
            uv: (s(0.0), s(0.0)),
        },
        material,
    })
}

fn sample(visible: bool, diffuse_angle: f32, specular_angle: f32) -> LightSample {
    LightSample { visible, diffuse_angle: s(diffuse_angle), specular_angle: s(specular_angle) }
}

#[test]
fn self_intersect_offset_is_a_thousandth() {
    assert_eq!(SELF_INTERSECT_OFFSET, 0.001f32.to_bits());
}

#[test]
fn directional_light_has_no_distance() {
    assert!(directional().distance_to_point(s(3.0)).is_none());
    assert_eq!(point().distance_to_point(s(3.0)).map(f), Some(3.0));
    assert_eq!(spot(0.5, 0.1).distance_to_point(s(7.0)).map(f), Some(7.0));
}

#[test]
fn point_light_is_hidden_by_a_nearer_strike_only() {
    let m = material(None);
    assert!(point().is_visible(s(5.0), &vec![]));
    assert!(point().is_visible(s(5.0), &vec![None, None]));
    assert!(!point().is_visible(s(5.0), &vec![None, hit(2.0, &m)]));
    assert!(point().is_visible(s(5.0), &vec![hit(5.0, &m), hit(9.0, &m)]));
    assert!(!point().is_visible(s(5.0), &vec![hit(9.0, &m), hit(4.999, &m)]));
    assert!(point().is_visible(s(5.0), &vec![hit(f32::NAN, &m)]));
    assert!(!spot(0.5, 0.1).is_visible(s(5.0), &vec![hit(1.0, &m)]));
}

#[test]
fn directional_light_is_hidden_by_any_strike() {
    let m = material(None);
    assert!(directional().is_visible(s(0.0), &vec![None]));
    assert!(!directional().is_visible(s(0.0), &vec![hit(1.0e9, &m)]));
    assert!(!directional().is_visible(s(0.0), &vec![None, hit(f32::NAN, &m)]));
}

#[test]
fn directional_and_point_lights_do_not_fall_off() {
    assert_eq!(directional().intensity_at(s(0.0), s(2.0)), Intensity::Full);
    assert_eq!(point().intensity_at(s(0.0), s(2.0)), Intensity::Attenuated);
}

#[test]
fn spot_light_is_full_up_to_the_inner_angle() {
    let light = spot(0.6, 0.2);
    let inner = 0.6f32 - 0.2;
    assert_eq!(light.intensity_at(s(inner), s(0.0)), Intensity::Attenuated);
    assert_eq!(light.intensity_at(s(inner), s(0.39)), Intensity::Attenuated);
    assert_eq!(light.intensity_at(s(inner), s(inner)), Intensity::Attenuated);
}

#[test]
fn spot_light_is_dark_from_the_outer_angle_on() {
    let light = spot(0.6, 0.2);
    let inner = 0.6f32 - 0.2;
    assert_eq!(light.intensity_at(s(inner), s(0.6)), Intensity::Dark);
    assert_eq!(light.intensity_at(s(inner), s(f32::from_bits(0.6f32.to_bits() + 1))), Intensity::Dark);
    assert_eq!(light.intensity_at(s(inner), s(3.0)), Intensity::Dark);
}

#[test]
fn spot_light_falls_off_in_the_penumbra() {
    let light = spot(0.6, 0.2);
    let inner = 0.6f32 - 0.2;
    assert_eq!(light.intensity_at(s(inner), s(0.5)), Intensity::Penumbra);
    assert_eq!(
        light.intensity_at(s(inner), s(f32::from_bits(0.6f32.to_bits() - 1))),
        Intensity::Penumbra
    );
    assert_eq!(
        light.intensity_at(s(inner), s(f32::from_bits(inner.to_bits() + 1))),
        Intensity::Penumbra
    );
    assert_eq!(light.intensity_at(s(inner), s(f32::NAN)), Intensity::Penumbra);
    let falloff = |angle: f32| {
        let x = (angle - inner) / 0.2;
        -2.0 * x.powi(3) + 3.0 * x.powi(2)
    };
    assert!((1.0 - falloff(inner + 0.1) - 0.5).abs() < 1.0e-6);
}

#[test]
fn spot_light_without_a_penumbra_is_full_up_to_its_angle_and_dark_beyond() {
    let light = spot(0.6, 0.0);
    assert_eq!(light.intensity_at(s(0.6), s(0.6)), Intensity::Attenuated);
    assert_eq!(
        light.intensity_at(s(0.6), s(f32::from_bits(0.6f32.to_bits() + 1))),
        Intensity::Dark
    );
}

#[test]
fn attenuation_never_exceeds_one() {
    for reciprocal in [
        0.0f32,
        0.25,
        0.99999994,
        1.0,
        1.0000001,
        7.5,
        -3.0,
        -0.0,
        f32::INFINITY,
        f32::NEG_INFINITY,
        f32::NAN,
    ] {
        let got = f(attenuation_over_distance(s(reciprocal)));
        let expected = 1f32.min(reciprocal);
        assert!(got == expected, "{reciprocal:?}: {got:?} {expected:?}");
    }
    assert_eq!(f(attenuation_over_distance(s(1.0 / (1.0 + 0.5 * 2.0 + 0.25 * 4.0)))), 1.0 / 3.0);
}

#[test]
fn hidden_light_shades_nothing_where_shadows_are_enabled() {
    let shadings = phong(&config(true, false), &material(None), &vec![sample(false, 0.5, 0.5), sample(true, 0.5, 0.5)]);
    assert_eq!(shadings.len(), 2);
    assert!(shadings[0].is_none());
    assert!(shadings[1].is_some());
}

#[test]
fn shadows_disabled_equal_shadows_without_occluders() {
    let m = material(None);
    let samples = vec![sample(true, 0.25, 0.75), sample(true, -0.5, -0.25)];
    let on = phong(&config(true, false), &m, &samples);
    let off = phong(&config(false, false), &m, &samples);
    for k in 0..samples.len() {
        let (a, b) = (on[k].unwrap(), off[k].unwrap());
        assert_eq!(a.diffuse_angle.bits, b.diffuse_angle.bits);
        assert_eq!(a.textured, b.textured);
        assert_eq!(a.specular_base.map(|x| x.bits), b.specular_base.map(|x| x.bits));
    }
    let hidden = phong(&config(false, false), &m, &vec![sample(false, 0.25, 0.75)]);
    assert!(hidden[0].is_some());
}

#[test]
fn cosines_below_zero_give_no_light() {
    let shading = phong(&config(false, false), &material(None), &vec![sample(true, -0.3, -0.2)])[0].unwrap();
    assert_eq!(shading.diffuse_angle.bits, 0);
    assert!(shading.specular_base.is_none());
    let shading = phong(&config(false, false), &material(None), &vec![sample(true, 0.3, 0.2)])[0].unwrap();
    assert_eq!(f(shading.diffuse_angle), 0.3);
    assert_eq!(shading.specular_base.map(f), Some(0.2));
    let shading = phong(&config(false, false), &material(None), &vec![sample(true, 0.0, 0.0)])[0].unwrap();
    assert_eq!(shading.specular_base.map(f), Some(0.0));
}

#[test]
fn texture_is_blended_only_where_enabled_and_present() {
    let textured = |enable: bool, texture: Option<Texture>| {
        phong(&config(false, enable), &material(texture), &vec![sample(true, 1.0, 1.0)])[0].unwrap().textured
    };
    assert!(textured(true, Some(texture())));
    assert!(!textured(false, Some(texture())));
    assert!(!textured(true, None));
    assert!(!textured(false, None));
}

#[test]
fn phong_gives_nothing_for_no_lights() {
    assert!(phong(&config(true, true), &material(None), &Vec::new()).is_empty());
}

#[test]
fn intensities_are_clamped_to_the_unit_range() {
    assert_eq!(f(clamp_intensity(s(-0.5))), 0.0);
    assert_eq!(f(clamp_intensity(s(0.25))), 0.25);
    assert_eq!(f(clamp_intensity(s(1.5))), 1.0);
    assert_eq!(f(clamp_intensity(s(f32::NAN))), 0.0);
}

#[test]
fn to_rgb_scales_to_eight_bits() {
    let rgb = |x: f32, y: f32, z: f32| {
        let scale = |i: f32| 255.0 * f(clamp_intensity(s(i)));
        to_rgb(&v(scale(x), scale(y), scale(z), 1.0))
    };
    assert_eq!(rgb(0.0, 0.5, 1.0), (0, 127, 255));
    assert_eq!(rgb(-1.0, 2.0, 0.999), (0, 255, 254));
    assert_eq!(rgb(0.2, 0.3, 0.4), ((255.0 * 0.2f32) as u8, (255.0 * 0.3f32) as u8, (255.0 * 0.4f32) as u8));
    assert_eq!(rgb(f32::NAN, 0.004, 0.1), (0, 1, 25));
}

#[test]
fn uv_lookup_wraps_around_the_image() {
    let mut image = Raster::new(4, 2).unwrap();
    for y in 0..2u32 {
        for x in 0..4u32 {
            assert!(image.put_pixel(x, y, (x as u8, y as u8, 9)));
        }
    }
    let lookup = |u: f32, w: f32, repeat_u: f32, repeat_v: f32| {
        uv_lookup(s(u * 4.0 * repeat_u), s((1.0 - w) * 2.0 * repeat_v), &image)
    };
    assert_eq!(lookup(0.0, 1.0, 1.0, 1.0), Some((0, 0, 9)));
    assert_eq!(lookup(0.3, 0.4, 1.0, 1.0), Some((1, 1, 9)));
    assert_eq!(lookup(0.99, 0.99, 1.0, 1.0), Some((3, 0, 9)));
    assert_eq!(lookup(1.0, 0.0, 1.0, 1.0), Some((0, 0, 9)));
    assert_eq!(lookup(0.6, 0.3, 3.0, 2.0), Some((3, 0, 9)));
    assert_eq!(lookup(-0.4, 1.5, 1.0, 1.0), Some((0, 0, 9)));
}

#[test]
fn uv_lookup_in_an_image_without_pixels_is_none() {
    let empty = Raster::new(0, 5).unwrap();
    assert_eq!(uv_lookup(s(1.0), s(1.0), &empty), None);
    let empty = Raster::new(5, 0).unwrap();
    assert_eq!(uv_lookup(s(1.0), s(1.0), &empty), None);
}
