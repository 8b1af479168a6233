use raytracer::arith::Arith;
use raytracer::camera::Camera;
use raytracer::cube::Cube;
use raytracer::light::Light;
use raytracer::material::Material;
use raytracer::output::{color_to_rgb, frame_to_raster, is_frame};
use raytracer::plane::Plane;
use raytracer::pyramid::Pyramid;
use raytracer::raster::Raster;
use raytracer::ray::Ray;
use raytracer::renderer::{Renderer, MAX_DEPTH};
use raytracer::scalar::Scalar;
use raytracer::scene::{Intersectable, Scene};
use raytracer::sphere::Sphere;
use raytracer::texture::Texture;
use raytracer::vector::Vec3;

struct Ieee;

fn s(x: f32) -> Scalar {
    Scalar::from_bits(x.to_bits())
}

fn f(x: Scalar) -> f32 {
    f32::from_bits(x.to_bits())
}

impl Arith for Ieee {
    fn sum(&self, a: Scalar, b: Scalar) -> Scalar {
        s(f(a) + f(b))
    }
    fn difference(&self, a: Scalar, b: Scalar) -> Scalar {
        s(f(a) - f(b))
    }
    fn product(&self, a: Scalar, b: Scalar) -> Scalar {
        s(f(a) * f(b))
    }
    fn quotient(&self, a: Scalar, b: Scalar) -> Scalar {
        s(f(a) / f(b))
    }
    fn remainder(&self, a: Scalar, b: Scalar) -> Scalar {
        s(f(a) % f(b))
    }
    fn square_root(&self, a: Scalar) -> Scalar {
        s(f(a).sqrt())
    }
    fn power(&self, a: Scalar, b: Scalar) -> Scalar {
        s(f(a).powf(f(b)))
    }
    fn sine(&self, a: Scalar) -> Scalar {
        s(f(a).sin())
    }
    fn cosine(&self, a: Scalar) -> Scalar {
        s(f(a).cos())
    }
    fn tangent(&self, a: Scalar) -> Scalar {
        s(f(a).tan())
    }
    fn arc_sine(&self, a: Scalar) -> Scalar {
        s(f(a).asin())
    }
    fn arc_tangent2(&self, y: Scalar, x: Scalar) -> Scalar {
        s(f(y).atan2(f(x)))
    }
    fn from_count(&self, n: u32) -> Scalar {
        s(n as f32)
    }
}

fn v(x: f32, y: f32, z: f32) -> Vec3 {
    Vec3::new(s(x), s(y), s(z))
}

fn xyz(p: Vec3) -> (f32, f32, f32) {
    (f(p.x), f(p.y), f(p.z))
}

fn bits(p: Vec3) -> (u32, u32, u32) {
    (p.x.to_bits(), p.y.to_bits(), p.z.to_bits())
}

fn close(a: f32, b: f32, tol: f32) -> bool {
    (a - b).abs() < tol
}

fn camera() -> Camera {
    Camera::new(v(0.0, 0.0, 5.0), v(0.0, 0.0, 0.0), v(0.0, 1.0, 0.0), s(45.0), s(1.0), 100, 100, &Ieee)
}

fn background() -> Vec3 {
    v(0.2, 0.2, 0.25)
}

fn aimed(from: (f32, f32, f32), at: (f32, f32, f32)) -> Ray {
    let d = v(at.0 - from.0, at.1 - from.1, at.2 - from.2).normalize(&Ieee);
    Ray::new(v(from.0, from.1, from.2), d)
}

fn sphere_scene() -> Scene {
    let mut scene = Scene::new(camera(), background());
    scene.add_sphere(Sphere::new(v(0.0, 0.0, 0.0), s(1.0), Material::new(v(1.0, 0.0, 0.0))));
    scene.add_light(Light::white(v(0.0, 5.0, 0.0), s(1.0)));
    scene
}

fn quad() -> Texture {
    Texture {
        width: 2,
        height: 2,
        data: vec![
            vec![v(1.0, 0.0, 0.0), v(0.0, 1.0, 0.0)],
            vec![v(0.0, 0.0, 1.0), v(1.0, 1.0, 1.0)],
        ],
    }
}

#[test]
fn camera_looks_along_its_axis() {
    let cam = camera();
    assert_eq!(xyz(cam.position), (0.0, 0.0, 5.0));
    assert_eq!((cam.width, cam.height), (100, 100));
    let mid = cam.get_ray(s(0.5), s(0.5), &Ieee);
    assert_eq!(xyz(mid.origin), (0.0, 0.0, 5.0));
    assert!(close(f(mid.direction.x), 0.0, 1e-6));
    assert!(close(f(mid.direction.y), 0.0, 1e-6));
    assert!(close(f(mid.direction.z), -1.0, 1e-6));
    let corner = cam.get_ray(s(0.0), s(0.0), &Ieee);
    assert!(f(corner.direction.x) < 0.0 && f(corner.direction.y) < 0.0);
    assert!(close(f(corner.direction.length(&Ieee)), 1.0, 1e-6));
    let half = (22.5f32).to_radians().tan();
    assert!(close(f(corner.direction.y) / f(corner.direction.z), half, 1e-5));
    let top = cam.get_ray(s(0.5), s(1.0), &Ieee);
    assert!(f(top.direction.y) > 0.0);
}

#[test]
fn materials_and_lights_carry_their_numbers() {
    let c = v(0.1, 0.2, 0.3);
    let m = Material::new(c);
    assert_eq!((f(m.albedo), f(m.specular), f(m.shininess), f(m.reflectivity)), (0.8, 0.2, 32.0, 0.0));
    let m = Material::diffuse(c);
    assert_eq!((f(m.albedo), f(m.specular), f(m.shininess), f(m.reflectivity)), (0.8, 0.0, 1.0, 0.0));
    let m = Material::shiny(c);
    assert_eq!((f(m.albedo), f(m.specular), f(m.shininess), f(m.reflectivity)), (0.5, 0.8, 64.0, 0.3));
    let m = Material::reflective(c);
    assert_eq!((f(m.albedo), f(m.specular), f(m.shininess), f(m.reflectivity)), (0.1, 0.9, 128.0, 0.9));
    assert_eq!(xyz(m.color), (0.1, 0.2, 0.3));
    assert!(!m.has_texture && m.texture_id.is_none());
    let t = m.with_texture(3);
    assert!(t.has_texture && t.texture_id == Some(3));
    assert_eq!(f(t.albedo), 0.1);
    let l = Light::white(v(1.0, 2.0, 3.0), s(0.5));
    assert_eq!(xyz(l.color), (1.0, 1.0, 1.0));
    assert_eq!(xyz(l.position), (1.0, 2.0, 3.0));
    assert_eq!(f(l.intensity), 0.5);
    let l = Light::new(v(1.0, 2.0, 3.0), v(1.0, 0.5, 0.0), s(2.0));
    assert_eq!(xyz(l.color), (1.0, 0.5, 0.0));
}

#[test]
fn one_colour_texture_gives_that_colour_everywhere() {
    let t = Texture::solid(v(0.8, 0.2, 0.2));
    assert_eq!((t.width, t.height), (1, 1));
    let coords = [0.0, 0.25, 0.5, 0.999, 1.0, -3.0, 7.0, f32::NAN, f32::INFINITY];
    for &u in coords.iter() {
        for &w in coords.iter() {
            assert_eq!(xyz(t.sample(s(u), s(w), &Ieee)), (0.8, 0.2, 0.2));
        }
    }
}

#[test]
fn texture_lookup_by_quadrant() {
    let t = quad();
    assert_eq!(xyz(t.sample(s(0.25), s(0.25), &Ieee)), (1.0, 0.0, 0.0));
    assert_eq!(xyz(t.sample(s(0.75), s(0.25), &Ieee)), (0.0, 1.0, 0.0));
    assert_eq!(xyz(t.sample(s(0.25), s(0.75), &Ieee)), (0.0, 0.0, 1.0));
    assert_eq!(xyz(t.sample(s(0.75), s(0.75), &Ieee)), (1.0, 1.0, 1.0));
    assert_eq!(xyz(t.sample(s(1.0), s(1.0), &Ieee)), (1.0, 1.0, 1.0));
    assert_eq!(xyz(t.sample(s(0.0), s(0.0), &Ieee)), (1.0, 0.0, 0.0));
    assert_eq!(xyz(t.sample(s(0.5), s(0.0), &Ieee)), (0.0, 1.0, 0.0));
    assert_eq!(xyz(t.sample(s(-1.0), s(9.0), &Ieee)), (0.0, 0.0, 1.0));
    assert_eq!(xyz(t.texel(0, 1)), (0.0, 0.0, 1.0));
    assert_eq!(xyz(t.texel(1, 0)), (0.0, 1.0, 0.0));
    assert_eq!(xyz(t.texel(7, 0)), (0.0, 1.0, 0.0));
    assert_eq!(xyz(t.texel(u32::MAX, u32::MAX)), (1.0, 1.0, 1.0));
}

#[test]
fn texture_from_an_image() {
    let img = Raster::from_raw(2, 1, vec![255, 0, 0, 0, 128, 255]).unwrap();
    assert_eq!(img.dimensions(), (2, 1));
    let t = Texture::from_image(&img, &Ieee);
    assert_eq!((t.width, t.height), (2, 1));
    assert_eq!(t.data.len(), 1);
    assert_eq!(t.data[0].len(), 2);
    assert_eq!(xyz(t.data[0][0]), (1.0, 0.0, 0.0));
    assert_eq!(xyz(t.data[0][1]), (0.0, 128.0 / 255.0, 1.0));
    let tall = Raster::from_raw(1, 3, vec![1, 2, 3, 4, 5, 6, 7, 8, 9]).unwrap();
    assert_eq!(tall.dimensions(), (1, 3));
    let t = Texture::from_image(&tall, &Ieee);
    assert_eq!((t.width, t.height, t.data.len()), (1, 3, 3));
    assert_eq!(xyz(t.data[2][0]), (7.0 / 255.0, 8.0 / 255.0, 9.0 / 255.0));
    assert_eq!(xyz(t.sample(s(0.5), s(0.5), &Ieee)), (4.0 / 255.0, 5.0 / 255.0, 6.0 / 255.0));
    let empty = Raster::from_raw(0, 0, vec![]).unwrap();
    let t = Texture::from_image(&empty, &Ieee);
    assert_eq!((t.width, t.height, t.data.len()), (0, 0, 0));
}

#[test]
fn raster_needs_enough_bytes() {
    assert!(Raster::from_raw(2, 2, vec![0; 11]).is_none());
    assert!(Raster::from_raw(2, 2, vec![0; 12]).is_some());
    assert!(Raster::from_raw(u32::MAX, u32::MAX, vec![0; 12]).is_none());
    let img = Raster::from_raw(2, 2, vec![9; 13]).unwrap();
    assert_eq!(img.dimensions(), (2, 2));
    let bytes = Raster::from_raw(1, 2, vec![1, 2, 3, 4, 5, 6]).unwrap().into_raw();
    assert_eq!(bytes, vec![1, 2, 3, 4, 5, 6]);
    let blank = Raster::blank(2, 1).unwrap();
    assert_eq!(blank.dimensions(), (2, 1));
    assert_eq!(blank.into_raw(), vec![0, 0, 0, 0, 0, 0]);
}

#[test]
fn colours_become_bytes() {
    assert_eq!(color_to_rgb(v(1.0, 0.5, 0.0), &Ieee), (255, 128, 0));
    assert_eq!(color_to_rgb(v(-1.0, 2.0, f32::NAN), &Ieee), (0, 255, 0));
    assert_eq!(color_to_rgb(v(0.2, 0.2, 0.25), &Ieee), (51, 51, 64));
    assert_eq!(color_to_rgb(v(0.001, 0.002, 0.999), &Ieee), (0, 1, 255));
}

#[test]
fn frame_becomes_a_picture() {
    let frame = vec![
        vec![v(1.0, 0.0, 0.0), v(0.0, 1.0, 0.0), v(0.0, 0.0, 1.0)],
        vec![v(0.5, 0.5, 0.5), v(2.0, -1.0, 0.2), v(0.0, 0.0, 0.0)],
    ];
    assert!(is_frame(&frame));
    let img = frame_to_raster(&frame, &Ieee).unwrap();
    assert_eq!(img.dimensions(), (3, 2));
    assert_eq!(
        img.into_raw(),
        vec![255, 0, 0, 0, 255, 0, 0, 0, 255, 128, 128, 128, 255, 0, 51, 0, 0, 0]
    );
    let none: Vec<Vec<Vec3>> = vec![];
    assert!(is_frame(&none));
    let img = frame_to_raster(&none, &Ieee).unwrap();
    assert_eq!(img.dimensions(), (0, 0));
    assert!(img.into_raw().is_empty());
    let ragged = vec![vec![v(0.0, 0.0, 0.0)], vec![]];
    assert!(!is_frame(&ragged));
    let longer = vec![vec![v(0.0, 0.0, 0.0)], vec![v(1.0, 1.0, 1.0), v(0.5, 0.5, 0.5)]];
    assert!(is_frame(&longer));
    let img = frame_to_raster(&longer, &Ieee).unwrap();
    assert_eq!(img.dimensions(), (1, 2));
    assert_eq!(img.into_raw(), vec![0, 0, 0, 255, 255, 255]);
}

#[test]
fn scene_keeps_order_and_counts_textures_from_zero() {
    let mut scene = Scene::new(camera(), background());
    assert!(scene.objects.is_empty() && scene.lights.is_empty() && scene.textures.is_empty());
    assert_eq!(xyz(scene.background_color), (0.2, 0.2, 0.25));
    assert_eq!(scene.add_texture(Texture::solid(v(0.8, 0.2, 0.2))), 0);
    assert_eq!(scene.add_texture(quad()), 1);
    assert_eq!(scene.add_texture(Texture::solid(v(0.6, 0.6, 0.6))), 2);
    assert_eq!(scene.textures.len(), 3);
    assert_eq!(scene.textures[1].width, 2);
    let white = Material::diffuse(v(1.0, 1.0, 1.0));
    scene.add_sphere(Sphere::new(v(0.0, 0.0, 0.0), s(1.0), white));
    scene.add_plane(Plane::new(v(0.0, -1.0, 0.0), v(0.0, 1.0, 0.0), white, &Ieee));
    scene.add_cube(Cube::centered(v(3.0, 0.0, 0.0), s(1.0), white, &Ieee));
    scene.add_pyramid(Pyramid::centered(v(-3.0, 0.0, 0.0), s(1.0), white, &Ieee));
    scene.add_object(Intersectable::Sphere(Sphere::new(v(0.0, 3.0, 0.0), s(1.0), white)));
    scene.add_light(Light::white(v(0.0, 5.0, 0.0), s(1.0)));
    assert_eq!(scene.objects.len(), 5);
    assert_eq!(scene.lights.len(), 1);
    assert!(matches!(scene.objects[0], Intersectable::Sphere(_)));
    assert!(matches!(scene.objects[1], Intersectable::Plane(_)));
    assert!(matches!(scene.objects[2], Intersectable::Cube(_)));
    assert!(matches!(scene.objects[3], Intersectable::Pyramid(_)));
    assert!(matches!(scene.objects[4], Intersectable::Sphere(_)));
    assert_eq!(scene.textures.len(), 3);
}

#[test]
fn nearest_shape_wins_and_the_first_on_a_tie() {
    let mut scene = Scene::new(camera(), background());
    let red = Material::new(v(1.0, 0.0, 0.0));
    let green = Material::new(v(0.0, 1.0, 0.0));
    let blue = Material::new(v(0.0, 0.0, 1.0));
    scene.add_sphere(Sphere::new(v(0.0, 0.0, -4.0), s(1.0), red));
    scene.add_sphere(Sphere::new(v(0.0, 0.0, 0.0), s(1.0), green));
    scene.add_sphere(Sphere::new(v(0.0, 0.0, 0.0), s(1.0), blue));
    let r = Ray::new(v(0.0, 0.0, 5.0), v(0.0, 0.0, -1.0));
    let hits: Vec<Option<f32>> = scene.intersections(&r, &Ieee).iter().map(|h| h.map(f)).collect();
    assert_eq!(hits, vec![Some(8.0), Some(4.0), Some(4.0)]);
    let (t, object) = scene.find_closest_intersection(&r, &Ieee).unwrap();
    assert_eq!(f(t), 4.0);
    assert_eq!(xyz(object.get_material().color), (0.0, 1.0, 0.0));
    let (t, p, n, object) = Renderer::find_closest_intersection(&r, &scene, &Ieee).unwrap();
    assert_eq!(f(t), 4.0);
    assert_eq!(xyz(p), (0.0, 0.0, 1.0));
    assert_eq!(xyz(n), (0.0, 0.0, 1.0));
    assert_eq!(xyz(object.get_material().color), (0.0, 1.0, 0.0));
    let away = Ray::new(v(0.0, 0.0, 5.0), v(0.0, 1.0, 0.0));
    assert!(scene.find_closest_intersection(&away, &Ieee).is_none());
    assert!(Renderer::find_closest_intersection(&away, &scene, &Ieee).is_none());
    let empty = Scene::new(camera(), background());
    assert!(empty.find_closest_intersection(&r, &Ieee).is_none());
}

#[test]
fn shadow_rule() {
    assert!(Renderer::is_in_shadow(Some(s(2.0)), s(3.0)));
    assert!(!Renderer::is_in_shadow(Some(s(3.0)), s(3.0)));
    assert!(!Renderer::is_in_shadow(Some(s(4.0)), s(3.0)));
    assert!(!Renderer::is_in_shadow(None, s(3.0)));
    assert!(!Renderer::is_in_shadow(Some(s(f32::NAN)), s(3.0)));
    assert!(!Renderer::is_in_shadow(Some(s(2.0)), s(f32::NAN)));
    let base = v(0.1, 0.1, 0.1);
    let hidden = Renderer::illuminate(base, Some(s(2.0)), s(3.0), v(0.5, 0.5, 0.5), v(0.25, 0.0, 0.0), &Ieee);
    assert_eq!(bits(hidden), bits(base));
    let seen = Renderer::illuminate(base, Some(s(4.0)), s(3.0), v(0.5, 0.5, 0.5), v(0.25, 0.0, 0.0), &Ieee);
    assert_eq!(xyz(seen), (0.85, 0.6, 0.6));
    let open = Renderer::illuminate(base, None, s(3.0), v(0.5, 0.5, 0.5), v(0.25, 0.0, 0.0), &Ieee);
    assert_eq!(xyz(open), (0.85, 0.6, 0.6));
}

#[test]
fn hidden_light_adds_nothing() {
    let white = Material::diffuse(v(1.0, 1.0, 1.0));
    let floor = Plane::new(v(0.0, -1.0, 0.0), v(0.0, 1.0, 0.0), white, &Ieee);
    let point = v(0.0, -1.0, 0.0);
    let normal = v(0.0, 1.0, 0.0);
    let view = v(0.0, 0.0, 1.0);

    let mut lit = Scene::new(camera(), background());
    lit.add_plane(floor);
    lit.add_light(Light::white(v(0.0, 5.0, 0.0), s(1.0)));
    let c = Renderer::shade(&point, &normal, &white, &lit, &view, None, &Ieee);
    assert_eq!(xyz(c), (1.0, 1.0, 1.0));

    let mut dark = Scene::new(camera(), background());
    dark.add_plane(floor);
    dark.add_sphere(Sphere::new(v(0.0, 0.0, 0.0), s(0.5), white));
    dark.add_light(Light::white(v(0.0, 5.0, 0.0), s(1.0)));
    let c = Renderer::shade(&point, &normal, &white, &dark, &view, None, &Ieee);
    assert_eq!(xyz(c), (0.2, 0.2, 0.2));

    let mut beyond = Scene::new(camera(), background());
    beyond.add_plane(floor);
    beyond.add_sphere(Sphere::new(v(0.0, 3.0, 0.0), s(0.5), white));
    beyond.add_light(Light::white(v(0.0, 0.2, 0.0), s(1.0)));
    let c = Renderer::shade(&point, &normal, &white, &beyond, &view, None, &Ieee);
    assert_eq!(xyz(c), (1.0, 1.0, 1.0));

    let mut two = Scene::new(camera(), background());
    two.add_plane(floor);
    two.add_sphere(Sphere::new(v(0.0, 0.0, 0.0), s(0.5), white));
    two.add_light(Light::white(v(0.0, 5.0, 0.0), s(1.0)));
    two.add_light(Light::white(v(5.0, -1.0 + 5.0, 0.0), s(0.5)));
    let c = Renderer::shade(&point, &normal, &white, &two, &view, None, &Ieee);
    let diffuse = 0.70710677f32 * 0.8 * 0.5;
    assert!(close(f(c.x), 0.2 + diffuse, 1e-5));
}

#[test]
fn shading_formula() {
    let m = Material::new(v(1.0, 0.5, 0.0));
    let mut scene = Scene::new(camera(), background());
    scene.add_light(Light::new(v(0.0, 5.0, 0.0), v(1.0, 1.0, 1.0), s(0.5)));
    let point = v(0.0, 0.0, 0.0);
    let normal = v(0.0, 1.0, 0.0);
    let view = v(0.0, 1.0, 0.0);
    let c = Renderer::shade(&point, &normal, &m, &scene, &view, None, &Ieee);
    assert!(close(f(c.x), 0.2 + 0.8 * 0.5 + 0.2 * 0.5, 1e-6));
    assert!(close(f(c.y), 0.1 + 0.5 * 0.8 * 0.5 + 0.2 * 0.5, 1e-6));
    assert!(close(f(c.z), 0.2 * 0.5, 1e-6));
    let aside = v(1.0, 0.0, 0.0);
    let c = Renderer::shade(&point, &normal, &m, &scene, &aside, None, &Ieee);
    assert!(close(f(c.x), 0.2 + 0.8 * 0.5, 1e-6));
    assert!(close(f(c.z), 0.0, 1e-6));
    let below = v(0.0, -1.0, 0.0);
    let c = Renderer::shade(&point, &below, &m, &scene, &view, None, &Ieee);
    assert!(close(f(c.x), 0.2 + 0.2 * 0.5, 1e-6));
    assert!(close(f(c.y), 0.1 + 0.2 * 0.5, 1e-6));
    let none = Scene::new(camera(), background());
    let c = Renderer::shade(&point, &normal, &m, &none, &view, None, &Ieee);
    assert_eq!(xyz(c), (0.2, 0.1, 0.0));
}

#[test]
fn base_colour_falls_back_to_the_material() {
    let mut scene = Scene::new(camera(), background());
    scene.add_texture(Texture::solid(v(0.8, 0.2, 0.2)));
    scene.add_texture(quad());
    let plain = Material::diffuse(v(0.3, 0.3, 0.3));
    let uv = Some((s(0.75), s(0.25), 4usize));
    assert_eq!(xyz(Renderer::base_color(&plain, &scene, uv, &Ieee)), (0.3, 0.3, 0.3));
    assert_eq!(xyz(Renderer::base_color(&plain.with_texture(0), &scene, uv, &Ieee)), (0.8, 0.2, 0.2));
    assert_eq!(xyz(Renderer::base_color(&plain.with_texture(1), &scene, uv, &Ieee)), (0.0, 1.0, 0.0));
    assert_eq!(xyz(Renderer::base_color(&plain.with_texture(2), &scene, uv, &Ieee)), (0.3, 0.3, 0.3));
    assert_eq!(xyz(Renderer::base_color(&plain.with_texture(usize::MAX), &scene, uv, &Ieee)), (0.3, 0.3, 0.3));
    assert_eq!(xyz(Renderer::base_color(&plain.with_texture(1), &scene, None, &Ieee)), (0.3, 0.3, 0.3));
    let mut off = plain.with_texture(1);
    off.has_texture = false;
    assert_eq!(xyz(Renderer::base_color(&off, &scene, uv, &Ieee)), (0.3, 0.3, 0.3));
    let lit = Renderer::shade(
        &v(0.0, 0.0, 0.0),
        &v(0.0, 1.0, 0.0),
        &plain.with_texture(1),
        &scene,
        &v(0.0, 1.0, 0.0),
        uv,
        &Ieee,
    );
    assert_eq!(xyz(lit), (0.0, 0.2, 0.0));
}

#[test]
fn depth_zero_is_the_background() {
    let scene = sphere_scene();
    let rays = [
        aimed((0.0, 0.0, 5.0), (0.0, 0.0, 0.0)),
        aimed((0.0, 0.0, 5.0), (9.0, 9.0, 0.0)),
        Ray::new(v(0.0, 0.0, 0.0), v(0.0, 0.0, 0.0)),
        Ray::new(v(f32::NAN, 0.0, 0.0), v(0.0, f32::INFINITY, 0.0)),
    ];
    for r in rays.iter() {
        assert_eq!(bits(Renderer::trace_ray(r, &scene, 0, &Ieee)), bits(background()));
    }
    let empty = Scene::new(camera(), v(0.9, 0.8, 0.7));
    assert_eq!(xyz(Renderer::trace_ray(&rays[0], &empty, 0, &Ieee)), (0.9, 0.8, 0.7));
    assert_eq!(xyz(Renderer::trace_ray(&rays[0], &empty, 3, &Ieee)), (0.9, 0.8, 0.7));
}

#[test]
fn reflection_needs_reflectivity_and_depth() {
    assert!(Renderer::reflects(s(0.3), 2));
    assert!(Renderer::reflects(s(1.0), 5));
    assert!(!Renderer::reflects(s(0.3), 1));
    assert!(!Renderer::reflects(s(0.3), 0));
    assert!(!Renderer::reflects(s(0.0), 5));
    assert!(!Renderer::reflects(s(-0.5), 5));
    assert!(!Renderer::reflects(s(f32::NAN), 5));
    assert_eq!(MAX_DEPTH, 5);
}

#[test]
fn lone_sphere_is_seen_in_the_middle_and_not_at_the_edge() {
    let scene = sphere_scene();
    let middle = scene.camera.get_ray(s(0.5), s(0.5), &Ieee);
    let c = Renderer::trace_ray(&middle, &scene, MAX_DEPTH, &Ieee);
    assert_ne!(bits(c), bits(background()));
    assert!(f(c.x) >= 0.2 && f(c.y) < 0.2 && f(c.z) < 0.2);
    let edge = scene.camera.get_ray(s(0.0), s(0.0), &Ieee);
    assert_eq!(bits(Renderer::trace_ray(&edge, &scene, MAX_DEPTH, &Ieee)), bits(background()));
    let far = aimed((0.0, 0.0, 5.0), (40.0, 30.0, 0.0));
    assert_eq!(bits(Renderer::trace_ray(&far, &scene, MAX_DEPTH, &Ieee)), bits(background()));
    let top = aimed((0.0, 0.0, 5.0), (0.0, 0.9, 0.0));
    let lit = Renderer::trace_ray(&top, &scene, 1, &Ieee);
    assert!(f(lit.x) > f(c.x));
}

#[test]
fn mirror_sphere_shows_the_floor() {
    let mut mirror = Material::reflective(v(1.0, 0.0, 0.0));
    mirror.reflectivity = s(1.0);
    let green = Material::diffuse(v(0.0, 1.0, 0.0));
    let mut scene = Scene::new(camera(), background());
    scene.add_sphere(Sphere::new(v(0.0, 0.0, 0.0), s(1.0), mirror));
    scene.add_plane(Plane::new(v(0.0, -1.0, 0.0), v(0.0, 1.0, 0.0), green, &Ieee));
    scene.add_light(Light::white(v(5.0, 6.0, 4.0), s(1.0)));
    let r = aimed((0.0, 0.0, 5.0), (0.0, -0.6, 0.8));
    let c = Renderer::trace_ray(&r, &scene, 5, &Ieee);
    assert!(f(c.x) < 0.01);
    assert!(f(c.y) >= 0.19);
    assert!(f(c.z) < 0.01);
    let floor_point = v(0.0, -1.0, 0.85714287);
    let direct = Renderer::shade(&floor_point, &v(0.0, 1.0, 0.0), &green, &scene, &v(0.0, 0.0, 1.0), None, &Ieee);
    assert!(close(f(c.y), f(direct.y), 1e-3));
    let shallow = Renderer::trace_ray(&r, &scene, 1, &Ieee);
    assert!(f(shallow.y) < f(shallow.x) || f(shallow.x) > 0.01);
}

#[test]
fn partial_mirror_blends() {
    let half = {
        let mut m = Material::diffuse(v(1.0, 1.0, 1.0));
        m.reflectivity = s(0.5);
        m
    };
    let mut scene = Scene::new(camera(), v(0.0, 0.0, 1.0));
    scene.add_plane(Plane::new(v(0.0, 0.0, 0.0), v(0.0, 1.0, 0.0), half, &Ieee));
    let r = aimed((0.0, 1.0, 0.0), (0.0, 0.0, 0.0));
    let deep = Renderer::trace_ray(&r, &scene, 2, &Ieee);
    assert_eq!(xyz(deep), (0.1, 0.1, 0.6));
    let flat = Renderer::trace_ray(&r, &scene, 1, &Ieee);
    assert_eq!(xyz(flat), (0.2, 0.2, 0.2));
}

#[test]
fn malformed_textures_are_told_apart() {
    assert!(Texture::solid(v(0.1, 0.2, 0.3)).is_wf());
    assert!(quad().is_wf());
    let empty = Texture { width: 0, height: 0, data: vec![] };
    assert!(!empty.is_wf());
    let flat = Texture { width: 1, height: 0, data: vec![] };
    assert!(!flat.is_wf());
    let thin = Texture { width: 0, height: 1, data: vec![vec![]] };
    assert!(!thin.is_wf());
    let ragged = Texture { width: 2, height: 2, data: vec![vec![v(0.0, 0.0, 0.0); 2], vec![v(0.0, 0.0, 0.0); 1]] };
    assert!(!ragged.is_wf());
    let short = Texture { width: 2, height: 2, data: vec![vec![v(0.0, 0.0, 0.0); 2]] };
    assert!(!short.is_wf());
    let mut scene = Scene::new(camera(), background());
    assert!(scene.is_wf());
    scene.add_texture(quad());
    assert!(scene.is_wf());
    scene.textures.push(ragged);
    assert!(!scene.is_wf());
}
