use rand::rngs::StdRng;
use rand::{Rng, SeedableRng};
use raytrace::camera::{Camera, ConfigError, Frame};
use raytrace::color::Pixel;
use raytrace::hittable::HitRecord;
use raytrace::hittable_list::HittableList;
use raytrace::interval::interval;
use raytrace::material::{dielectric, lambertian, metal, Bounce, Material, MaterialType, Outcome};
use raytrace::path::{Light, Path};
use raytrace::ray::Ray;
use raytrace::scalar::Scalar;
use raytrace::sphere::{sphere, Roots, Sphere};
use raytrace::vec3::{inside_unit_ball, vec3, Vec3};

type V = (f64, f64, f64);

fn s(x: f64) -> Scalar {
    Scalar::from_bits(x.to_bits())
}

fn f(x: Scalar) -> f64 {
    f64::from_bits(x.to_bits())
}

fn pack(p: V) -> Vec3 {
    vec3(s(p.0), s(p.1), s(p.2))
}

fn unpack(p: Vec3) -> V {
    (f(p.x), f(p.y), f(p.z))
}

fn add(a: V, b: V) -> V {
    (a.0 + b.0, a.1 + b.1, a.2 + b.2)
}

fn sub(a: V, b: V) -> V {
    (a.0 - b.0, a.1 - b.1, a.2 - b.2)
}

fn mul(a: V, b: V) -> V {
    (a.0 * b.0, a.1 * b.1, a.2 * b.2)
}

fn scale(k: f64, a: V) -> V {
    (a.0 * k, a.1 * k, a.2 * k)
}

fn div(a: V, k: f64) -> V {
    scale(1. / k, a)
}

fn neg(a: V) -> V {
    (-a.0, -a.1, -a.2)
}

fn dot(a: V, b: V) -> f64 {
    a.0 * b.0 + a.1 * b.1 + a.2 * b.2
}

fn cross(u: V, w: V) -> V {
    (u.1 * w.2 - u.2 * w.1, u.2 * w.0 - u.0 * w.2, u.0 * w.1 - u.1 * w.0)
}

fn unit(a: V) -> V {
    div(a, dot(a, a).sqrt())
}

fn reflect(d: V, n: V) -> V {
    sub(d, scale(2.0 * dot(d, n), n))
}

fn refract(uv: V, n: V, eta: f64) -> V {
    let cos_theta = f(Material::cosine(s(dot(neg(uv), n))));
    let perp = scale(eta, add(uv, scale(cos_theta, n)));
    let parallel = scale(-(1.0 - dot(perp, perp)).abs().sqrt(), n);
    add(perp, parallel)
}

fn reflectance(cosine: f64, index: f64) -> f64 {
    let mut r0 = (1.0 - index) / (1.0 + index);
    r0 = r0 * r0;
    r0 + (1.0 - r0) * (1.0 - cosine).powi(5)
}

fn random_unit_vector(rng: &mut StdRng) -> V {
    loop {
        let p = (
            -1.0 + 2.0 * rng.gen::<f64>(),
            -1.0 + 2.0 * rng.gen::<f64>(),
            -1.0 + 2.0 * rng.gen::<f64>(),
        );
        if inside_unit_ball(s(dot(p, p))) {
            return unit(p);
        }
    }
}

fn roots_of(sp: &Sphere, r: &Ray) -> Roots {
    let radius = f(sp.radius());
    let d = unpack(r.direction());
    let oc = sub(unpack(sp.center()), unpack(r.origin()));
    let a = dot(d, d);
    let h = dot(d, oc);
    let c = dot(oc, oc) - radius * radius;
    let discriminant = h * h - a * c;
    let sqrtd = discriminant.sqrt();
    Roots { discriminant: s(discriminant), near: s((h - sqrtd) / a), far: s((h + sqrtd) / a) }
}

fn hit(world: &HittableList, r: &Ray) -> Option<HitRecord> {
    let mut roots = Vec::new();
    for i in 0..world.len() {
        roots.push(roots_of(world.get(i), r));
    }
    let nearest = world.hit(&roots, interval(s(0.001), s(f64::INFINITY)))?;
    let sp = world.get(nearest.index);
    let p = add(unpack(r.origin()), scale(f(nearest.t), unpack(r.direction())));
    let outward = div(sub(p, unpack(sp.center())), f(sp.radius()));
    let facing = dot(unpack(r.direction()), outward);
    Some(sp.hit(nearest.t, &pack(p), s(facing), &pack(outward)))
}

fn scatter(rng: &mut StdRng, r_in: &Ray, rec: &HitRecord) -> Outcome {
    let normal = unpack(rec.normal);
    let incoming = unpack(r_in.direction());
    let bounce = match rec.mat.mat_type() {
        MaterialType::Lambertian => Bounce::Diffuse { direction: pack(add(normal, random_unit_vector(rng))) },
        MaterialType::Metal => {
            let fuzzed = add(
                unit(reflect(incoming, normal)),
                scale(f(rec.mat.fuzz()), random_unit_vector(rng)),
            );
            Bounce::Mirror { direction: pack(fuzzed), facing: s(dot(fuzzed, normal)) }
        }
        MaterialType::Dielectric => {
            let index = f(rec.mat.refraction_index());
            let eta = f(rec.mat.relative_index(rec.front_face, s(1.0 / index)));
            let unit_direction = unit(incoming);
            let cos_theta = f(Material::cosine(s(dot(neg(unit_direction), normal))));
            let sin_theta = (1.0 - cos_theta * cos_theta).sqrt();
            Bounce::Glass {
                reflected: pack(reflect(unit_direction, normal)),
                refracted: pack(refract(unit_direction, normal, eta)),
                ratio_sine: s(eta * sin_theta),
                reflectance: s(reflectance(cos_theta, eta)),
                draw: s(rng.gen::<f64>()),
            }
        }
        MaterialType::OtherMaterial => Bounce::Diffuse { direction: rec.normal },
    };
    assert!(bounce.suits(rec.mat.mat_type()));
    rec.mat.scatter(rec, &bounce)
}

fn ray_color(rng: &mut StdRng, r: &Ray, depth: usize, world: &HittableList) -> V {
    let mut path = Path::new(r, depth);
    let mut steps = 0;
    while !path.done() {
        let ray = path.ray;
        let answer = hit(world, &ray).map(|rec| scatter(rng, &ray, &rec));
        path.advance(answer);
        steps += 1;
    }
    assert!(steps <= depth);
    assert!(path.attenuations.len() <= depth);
    let mut gathered = match path.light {
        Some(Light::Sky) => {
            let a = 0.5 * (unit(unpack(path.ray.direction())).1 + 1.0);
            add(scale(1.0 - a, (1.0, 1.0, 1.0)), scale(a, (0.5, 0.7, 1.0)))
        }
        _ => (0.0, 0.0, 0.0),
    };
    for attenuation in path.attenuations.iter().rev() {
        gathered = mul(unpack(*attenuation), gathered);
    }
    gathered
}

fn initialize(cam: &mut Camera) -> Result<(), ConfigError> {
    let quotient = cam.image_width as f64 / f(cam.aspect_ratio);
    let image_height = Camera::height_for(s(quotient));
    let look_from = unpack(cam.look_from);
    let focus_dist = f(cam.focus_dist);
    let h = (f(cam.vfov) * std::f64::consts::PI / 180.0 / 2.0).tan();
    let viewport_height = 2.0 * h * focus_dist;
    let viewport_width = viewport_height * (cam.image_width as f64 / image_height as f64);
    let w = unit(sub(look_from, unpack(cam.look_at)));
    let u = unit(cross(unpack(cam.v_up), w));
    let v = cross(w, u);
    let viewport_u = scale(viewport_width, u);
    let viewport_v = scale(viewport_height, neg(v));
    let pixel_delta_u = div(viewport_u, cam.image_width as f64);
    let pixel_delta_v = div(viewport_v, image_height as f64);
    let upper_left =
        sub(sub(sub(look_from, scale(focus_dist, w)), div(viewport_u, 2.)), div(viewport_v, 2.));
    let pixel00_loc = add(upper_left, scale(0.5, add(pixel_delta_u, pixel_delta_v)));
    let defocus_radius = focus_dist * (f(cam.defocus_angle) / 2.0 * std::f64::consts::PI / 180.0).tan();
    let frame = Frame {
        pixel_samples_scale: s(1.0 / cam.samples_per_pixel as f64),
        center: pack(look_from),
        pixel00_loc: pack(pixel00_loc),
        pixel_delta_u: pack(pixel_delta_u),
        pixel_delta_v: pack(pixel_delta_v),
        u: pack(u),
        v: pack(v),
        w: pack(w),
        defocus_disk_u: pack(scale(defocus_radius, u)),
        defocus_disk_v: pack(scale(defocus_radius, v)),
    };
    cam.initialize(s(quotient), &frame)
}

fn render(cam: &mut Camera, world: &HittableList, seed: u64) -> Result<Vec<u8>, ConfigError> {
    let mut rng = StdRng::seed_from_u64(seed);
    initialize(cam)?;
    let mut pixels = Vec::new();
    for j in 0..cam.image_height {
        for i in 0..cam.image_width {
            let mut sum = (0.0, 0.0, 0.0);
            for _ in 0..cam.samples_per_pixel {
                let offset = (rng.gen::<f64>() - 0.5, rng.gen::<f64>() - 0.5);
                let target = add(
                    add(
                        unpack(cam.frame.pixel00_loc),
                        scale(i as f64 + offset.0, unpack(cam.frame.pixel_delta_u)),
                    ),
                    scale(j as f64 + offset.1, unpack(cam.frame.pixel_delta_v)),
                );
                assert!(cam.pinhole());
                let origin = cam.ray_origin(&cam.frame.center);
                let ray = Ray::new(&origin, &pack(sub(target, unpack(origin))));
                sum = add(sum, ray_color(&mut rng, &ray, cam.max_depth, world));
            }
            let averaged = scale(f(cam.frame.pixel_samples_scale), sum);
            pixels.push(Pixel {
                color: pack(averaged),
                roots: pack((averaged.0.sqrt(), averaged.1.sqrt(), averaged.2.sqrt())),
            });
        }
    }
    Ok(cam.render(&pixels))
}

fn one_sphere() -> HittableList {
    let mut world = HittableList::new(Vec::new());
    world.add(sphere(&pack((0., 0., -1.)), s(0.5), &lambertian(pack((0.5, 0.5, 0.5)))));
    world
}

fn small_camera(max_depth: usize, samples: usize) -> Camera {
    let mut cam = Camera::default();
    cam.aspect_ratio = s(2.0);
    cam.image_width = 8;
    cam.samples_per_pixel = samples;
    cam.max_depth = max_depth;
    cam.focus_dist = s(1.0);
    cam
}

fn triples(image: &[u8]) -> Vec<Vec<u32>> {
    let text = String::from_utf8(image.to_vec()).expect("the image is ASCII");
    text.lines()
        .skip(3)
        .map(|l| l.split(' ').map(|n| n.parse::<u32>().expect("a decimal number")).collect())
        .collect()
}

#[test]
fn same_seed_gives_the_same_image() {
    let world = one_sphere();
    let first = render(&mut small_camera(10, 1), &world, 7).expect("the camera is sound");
    let second = render(&mut small_camera(10, 1), &world, 7).expect("the camera is sound");
    assert_eq!(first, second);
    assert!(first.starts_with(b"P3\n8 4\n255\n"));
    let pixels = triples(&first);
    assert_eq!(pixels.len(), 8 * 4);
    for p in pixels.iter() {
        assert_eq!(p.len(), 3);
        assert!(p.iter().all(|c| *c <= 255));
    }
    let other = render(&mut small_camera(10, 1), &world, 8).expect("the camera is sound");
    assert_eq!(other.len() > 11, true);
    assert!(other.starts_with(b"P3\n8 4\n255\n"));
}

#[test]
fn no_depth_gives_a_black_image() {
    let mut world = one_sphere();
    world.add(sphere(&pack((0., -100.5, -1.)), s(100.), &metal(pack((0.8, 0.6, 0.2)), s(0.3))));
    world.add(sphere(&pack((1., 0., -1.)), s(0.5), &dielectric(s(1.5))));
    for w in [world, HittableList::new(Vec::new())] {
        let image = render(&mut small_camera(0, 3), &w, 1).expect("the camera is sound");
        let pixels = triples(&image);
        assert_eq!(pixels.len(), 8 * 4);
        for p in pixels {
            assert_eq!(p, vec![0, 0, 0]);
        }
    }
}

#[test]
fn empty_scene_shows_the_sky() {
    let world = HittableList::new(Vec::new());
    let image = render(&mut small_camera(5, 2), &world, 3).expect("the camera is sound");
    let pixels = triples(&image);
    assert_eq!(pixels.len(), 32);
    for p in pixels.iter() {
        assert_eq!(p[2], 255);
        assert!(p[0] >= 181 && p[0] <= 255);
        assert!(p[1] >= 214 && p[1] <= 255);
        assert!(p[0] <= p[1]);
    }
    assert!(pixels[0][0] < pixels[31][0]);
}

#[test]
fn sphere_darkens_the_middle_of_the_image() {
    let world = one_sphere();
    let image = render(&mut small_camera(10, 20), &world, 11).expect("the camera is sound");
    let pixels = triples(&image);
    let corner = &pixels[0];
    let middle = &pixels[8 + 3];
    assert!(middle[2] < corner[2]);
    assert!(middle[0] > 0);
}

#[test]
fn mixed_scene_renders_within_the_byte_range() {
    let mut world = one_sphere();
    world.add(sphere(&pack((0., -100.5, -1.)), s(100.), &lambertian(pack((0.8, 0.8, 0.0)))));
    world.add(sphere(&pack((-1., 0., -1.)), s(0.5), &dielectric(s(1.5))));
    world.add(sphere(&pack((-1., 0., -1.)), s(0.4), &dielectric(s(1.0 / 1.5))));
    world.add(sphere(&pack((1., 0., -1.)), s(0.5), &metal(pack((0.8, 0.6, 0.2)), s(1.0))));
    let mut cam = small_camera(20, 4);
    cam.image_width = 16;
    let image = render(&mut cam, &world, 5).expect("the camera is sound");
    assert!(image.starts_with(b"P3\n16 8\n255\n"));
    let pixels = triples(&image);
    assert_eq!(pixels.len(), 16 * 8);
    assert!(pixels.iter().all(|p| p.len() == 3 && p.iter().all(|c| *c <= 255)));
    let again = render(&mut cam, &world, 5).expect("the camera is sound");
    assert_eq!(image, again);
}

#[test]
fn camera_looking_along_its_up_vector_is_refused() {
    let mut cam = small_camera(10, 1);
    cam.look_from = pack((0., 0., 0.));
    cam.look_at = pack((0., -1., 0.));
    cam.v_up = pack((0., 1., 0.));
    assert_eq!(render(&mut cam, &one_sphere(), 1), Err(ConfigError::Basis));
    let mut cam = small_camera(10, 1);
    cam.look_at = cam.look_from;
    assert_eq!(render(&mut cam, &one_sphere(), 1), Err(ConfigError::Basis));
    let mut cam = small_camera(10, 1);
    cam.vfov = s(0.0);
    assert_eq!(render(&mut cam, &one_sphere(), 1), Err(ConfigError::FieldOfView));
}
