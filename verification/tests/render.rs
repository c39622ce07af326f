use pathtracer::camera::{Camera, Frame};
use pathtracer::error::ConfigError;
use pathtracer::estimator::{classify, exhausted, intersect, search_range, step, PathEnd, Step};
use pathtracer::hittable::{HitRecord, Hittable};
use pathtracer::hittable_list::HittableList;
use pathtracer::interval::Interval;
use pathtracer::material::{Bend, Dielectric, Lambertian, Material, Metal, Scatter};
use pathtracer::ray::Ray;
use pathtracer::scalar::Scalar;
use pathtracer::sphere::Sphere;
use pathtracer::vec3::{normalizable, Vec3};
use rand::rngs::StdRng;
use rand::{Rng, SeedableRng};

type V = [f64; 3];

fn s(x: f64) -> Scalar {
    Scalar::from_bits(x.to_bits())
}

fn fl(x: Scalar) -> f64 {
    f64::from_bits(x.to_bits())
}

fn v(a: V) -> Vec3 {
    Vec3::new(s(a[0]), s(a[1]), s(a[2]))
}

fn f(a: Vec3) -> V {
    [fl(a.x()), fl(a.y()), fl(a.z())]
}

fn add(a: V, b: V) -> V {
    [a[0] + b[0], a[1] + b[1], a[2] + b[2]]
}

fn sub(a: V, b: V) -> V {
    [a[0] - b[0], a[1] - b[1], a[2] - b[2]]
}

fn scale(a: V, t: f64) -> V {
    [a[0] * t, a[1] * t, a[2] * t]
}

fn times(a: V, b: V) -> V {
    [a[0] * b[0], a[1] * b[1], a[2] * b[2]]
}

fn dot(a: V, b: V) -> f64 {
    a[0] * b[0] + a[1] * b[1] + a[2] * b[2]
}

fn cross(u: V, w: V) -> V {
    [u[1] * w[2] - u[2] * w[1], u[2] * w[0] - u[0] * w[2], u[0] * w[1] - u[1] * w[0]]
}

fn length(a: V) -> f64 {
    dot(a, a).sqrt()
}

fn unit(a: V) -> V {
    scale(a, 1.0 / length(a))
}

fn random_unit_vector(rng: &mut StdRng) -> V {
    loop {
        let p = [
            rng.random_range(-1.0..1.0),
            rng.random_range(-1.0..1.0),
            rng.random_range(-1.0..1.0),
        ];
        let lensq = dot(p, p);
        if normalizable(s(lensq)) {
            return scale(p, 1.0 / lensq.sqrt());
        }
    }
}

fn reflect(a: V, n: V) -> V {
    sub(a, scale(n, 2.0 * dot(a, n)))
}

fn refract(uv: V, n: V, ratio: f64) -> V {
    let cos_theta = dot(scale(uv, -1.0), n).min(1.0);
    let perp = scale(add(uv, scale(n, cos_theta)), ratio);
    let parallel = scale(n, -(1.0 - dot(perp, perp)).abs().sqrt());
    add(perp, parallel)
}

struct Ball {
    shape: Sphere,
}

impl Hittable for Ball {
    fn hit_spec(&self, _r: Ray, _ray_t: Interval) -> Option<HitRecord> {
        unreachable!("specification only")
    }

    fn lemma_hit_in_range(&self, _r: Ray, _ray_t: Interval) {}

    fn hit(&self, r: &Ray, ray_t: Interval) -> Option<HitRecord> {
        let center = f(self.shape.center());
        let radius = fl(self.shape.radius());
        let origin = f(r.origin());
        let direction = f(r.direction());
        let oc = sub(center, origin);
        let a = dot(direction, direction);
        let h = dot(direction, oc);
        let c = dot(oc, oc) - radius * radius;
        let discriminant = h * h - a * c;
        let sqrtd = discriminant.sqrt();
        let t = Sphere::select_root(
            s(discriminant),
            s((h - sqrtd) / a),
            s((h + sqrtd) / a),
            ray_t,
        )?;
        let p = add(origin, scale(direction, fl(t)));
        let outward = scale(sub(p, center), 1.0 / radius);
        Some(self.shape.hit_record(t, v(p), v(outward), s(dot(direction, outward))))
    }
}

type Scene = HittableList<Box<dyn Hittable>>;

fn ball(center: V, radius: f64, material: Material) -> Box<dyn Hittable> {
    Box::new(Ball { shape: Sphere::new(v(center), s(radius), material).unwrap() })
}

fn grey() -> Material {
    Material::Lambertian(Lambertian::new(v([0.5, 0.5, 0.5])))
}

fn scatter(r_in: &Ray, rec: &HitRecord, rng: &mut StdRng) -> Option<Scatter> {
    let normal = f(rec.normal);
    let incoming = f(r_in.direction());
    match rec.mat {
        Material::Lambertian(m) => m.scatter(rec, v(add(normal, random_unit_vector(rng)))),
        Material::Metal(m) => {
            let reflected = add(
                unit(reflect(incoming, normal)),
                scale(random_unit_vector(rng), fl(m.fuzz)),
            );
            m.scatter(rec, v(reflected), s(dot(reflected, normal)))
        }
        Material::Dielectric(m) => {
            let index = fl(m.refraction_index);
            let ri = if m.uses_reciprocal(rec) { 1.0 / index } else { index };
            let ud = unit(incoming);
            let cos_theta = dot(scale(ud, -1.0), normal).min(1.0);
            let sin_theta = (1.0 - cos_theta * cos_theta).sqrt();
            let r0 = ((1.0 - ri) / (1.0 + ri)).powi(2);
            let reflectance = r0 + (1.0 - r0) * (1.0 - cos_theta).powi(5);
            let sine_ratio = s(ri * sin_theta);
            let bend = match Dielectric::bend_without_draw(sine_ratio) {
                Some(bend) => bend,
                None => Dielectric::bend(sine_ratio, s(reflectance), s(rng.random::<f64>())),
            };
            let direction = match bend {
                Bend::Reflect => reflect(ud, normal),
                Bend::Refract => refract(ud, normal, ri),
            };
            m.scatter(rec, v(direction))
        }
    }
}

fn sky(r: &Ray) -> V {
    let a = 0.5 * (unit(f(r.direction()))[1] + 1.0);
    add(scale([1.0, 1.0, 1.0], 1.0 - a), scale([0.5, 0.7, 1.0], a))
}

fn ray_color(r: Ray, depth: i32, world: &Scene, rng: &mut StdRng) -> V {
    let mut attenuation = [1.0, 1.0, 1.0];
    let mut ray = r;
    let mut left = depth;
    loop {
        if exhausted(left) {
            return [0.0, 0.0, 0.0];
        }
        let hit = intersect(world, &ray);
        let scattered = match &hit {
            Some(rec) => scatter(&ray, rec, rng),
            None => None,
        };
        match step(left, classify(hit.is_some(), scattered.is_some())) {
            Step::Finished(PathEnd::Black) => return [0.0, 0.0, 0.0],
            Step::Finished(PathEnd::Environment) => return times(attenuation, sky(&ray)),
            Step::Continue { depth } => {
                let sc = scattered.unwrap();
                attenuation = times(attenuation, f(sc.attenuation));
                ray = sc.ray;
                left = depth;
            }
        }
    }
}

fn derive_frame(camera: &Camera) -> Frame {
    let aspect_ratio = fl(camera.aspect_ratio);
    let focus_dist = fl(camera.focus_dist);
    let lookfrom = f(camera.lookfrom);
    let image_height = ((camera.image_width as f64 / aspect_ratio) as i32).max(1);
    let h = (fl(camera.vfov).to_radians() / 2.0).tan();
    let viewport_height = 2.0 * h * focus_dist;
    let viewport_width = viewport_height * (camera.image_width as f64 / image_height as f64);
    let w = unit(sub(lookfrom, f(camera.lookat)));
    let u = unit(cross(f(camera.vup), w));
    let up = cross(w, u);
    let viewport_u = scale(u, viewport_width);
    let viewport_v = scale(up, -viewport_height);
    let delta_u = scale(viewport_u, 1.0 / camera.image_width as f64);
    let delta_v = scale(viewport_v, 1.0 / image_height as f64);
    let upper_left = sub(
        sub(sub(lookfrom, scale(w, focus_dist)), scale(viewport_u, 0.5)),
        scale(viewport_v, 0.5),
    );
    let radius = focus_dist * (fl(camera.defocus_angle) / 2.0).to_radians().tan();
    Frame {
        image_height,
        pixel_samples_scale: s(1.0 / camera.samples_per_pixel as f64),
        center: v(lookfrom),
        pixel00_loc: v(add(upper_left, scale(add(delta_u, delta_v), 0.5))),
        pixel_delta_u: v(delta_u),
        pixel_delta_v: v(delta_v),
        u: v(u),
        v: v(up),
        w: v(w),
        defocus_disk_u: v(scale(u, radius)),
        defocus_disk_v: v(scale(up, radius)),
    }
}

fn get_ray(camera: &Camera, frame: &Frame, i: i32, j: i32, offset: [f64; 2]) -> Ray {
    let sample = add(
        add(f(frame.pixel00_loc), scale(f(frame.pixel_delta_u), i as f64 + offset[0])),
        scale(f(frame.pixel_delta_v), j as f64 + offset[1]),
    );
    let origin = match camera.origin_without_draw() {
        Some(origin) => f(origin),
        None => f(camera.ray_origin(frame.center)),
    };
    Ray::new(v(origin), v(sub(sample, origin)))
}

fn pixel(camera: &Camera, frame: &Frame, world: &Scene, i: i32, j: i32, seed: u64) -> V {
    let mut rng = StdRng::seed_from_u64(seed);
    let mut sum = [0.0, 0.0, 0.0];
    for _ in 0..camera.samples_per_pixel {
        let offset = [rng.random::<f64>() - 0.5, rng.random::<f64>() - 0.5];
        let r = get_ray(camera, frame, i, j, offset);
        sum = add(sum, ray_color(r, camera.max_depth, world, &mut rng));
    }
    scale(sum, fl(frame.pixel_samples_scale))
}

fn small_camera() -> (Camera, Frame) {
    let mut camera = Camera::new()
        .with_image_width(21)
        .with_samples_per_pixel(400)
        .unwrap()
        .with_max_depth(10);
    let derived = derive_frame(&camera);
    let frame = camera.initialize(derived).unwrap();
    (camera, frame)
}

#[test]
fn a_sphere_needs_a_radius_above_zero() {
    assert!(Sphere::new(v([0.0, 0.0, -1.0]), s(0.5), grey()).is_ok());
    assert!(Sphere::new(v([0.0, 0.0, -1.0]), s(5e-324), grey()).is_ok());
    for radius in [0.0, -0.0, -0.5, f64::NEG_INFINITY, f64::NAN] {
        assert_eq!(
            Sphere::new(v([0.0, 0.0, -1.0]), s(radius), grey()).err(),
            Some(ConfigError::RadiusNotPositive)
        );
    }
    let sphere = Sphere::new(v([1.0, 2.0, 3.0]), s(0.25), grey()).unwrap();
    assert_eq!(f(sphere.center()), [1.0, 2.0, 3.0]);
    assert_eq!(fl(sphere.radius()), 0.25);
    assert!(matches!(sphere.material(), Material::Lambertian(_)));
}

#[test]
fn the_smaller_root_is_tried_first() {
    let range = Interval::new(s(0.001), s(f64::INFINITY));
    let pick = |d: f64, near: f64, far: f64, iv: Interval| {
        Sphere::select_root(s(d), s(near), s(far), iv).map(fl)
    };
    assert_eq!(pick(1.0, 0.5, 1.5, range), Some(0.5));
    assert_eq!(pick(1.0, -0.5, 1.5, range), Some(1.5));
    assert_eq!(pick(1.0, 0.0005, 1.5, range), Some(1.5));
    assert_eq!(pick(1.0, -1.5, -0.5, range), None);
    assert_eq!(pick(-1.0, 0.5, 1.5, range), None);
    assert_eq!(pick(0.0, 0.5, 0.5, range), Some(0.5));
    assert_eq!(pick(f64::NAN, f64::NAN, f64::NAN, range), None);
    let narrow = Interval::new(s(0.001), s(1.0));
    assert_eq!(pick(1.0, 0.5, 1.5, narrow), Some(0.5));
    assert_eq!(pick(1.0, -0.5, 1.5, narrow), None);
    assert_eq!(pick(1.0, -0.5, 1.0, narrow), None);
}

#[test]
fn the_hit_point_lies_on_the_sphere() {
    let mut rng = StdRng::seed_from_u64(11);
    let mut hits = 0;
    for _ in 0..2000 {
        let center = [rng.random_range(-2.0..2.0), rng.random_range(-2.0..2.0), rng.random_range(-4.0..-1.0)];
        let radius = rng.random_range(0.1..1.5);
        let b = Ball { shape: Sphere::new(v(center), s(radius), grey()).unwrap() };
        let origin = [rng.random_range(-1.0..1.0), rng.random_range(-1.0..1.0), rng.random_range(-1.0..1.0)];
        let direction = scale(random_unit_vector(&mut rng), rng.random_range(0.1..7.0));
        let r = Ray::new(v(origin), v(direction));
        if let Some(rec) = b.hit(&r, search_range()) {
            hits += 1;
            let t = fl(rec.t);
            assert!(t > 0.001);
            let p = add(origin, scale(direction, t));
            assert!((length(sub(p, center)) - radius).abs() < 1e-9);
            assert!((length(sub(f(rec.p), center)) - radius).abs() < 1e-9);
            assert!((length(f(rec.normal)) - 1.0).abs() < 1e-9);
        }
    }
    assert!(hits > 50);
}

#[test]
fn the_stored_normal_opposes_the_ray() {
    let mut rng = StdRng::seed_from_u64(12);
    let mut front = 0;
    let mut back = 0;
    for _ in 0..2000 {
        let center = [rng.random_range(-1.0..1.0), rng.random_range(-1.0..1.0), rng.random_range(-2.0..0.0)];
        let b = Ball { shape: Sphere::new(v(center), s(rng.random_range(0.3..1.5)), grey()).unwrap() };
        let direction = scale(random_unit_vector(&mut rng), rng.random_range(0.1..7.0));
        let r = Ray::new(v([0.0, 0.0, 0.0]), v(direction));
        if let Some(rec) = b.hit(&r, search_range()) {
            assert!(dot(f(rec.normal), direction) <= 0.0);
            let outward = scale(sub(f(rec.p), center), 1.0 / fl(b.shape.radius()));
            assert_eq!(rec.front_face, dot(direction, outward) < 0.0);
            if rec.front_face {
                front += 1;
            } else {
                back += 1;
            }
        }
    }
    assert!(front > 10 && back > 10);
}

#[test]
fn the_record_turns_the_normal_against_the_ray() {
    let sphere = Sphere::new(v([0.0, 0.0, -1.0]), s(0.5), grey()).unwrap();
    let rec = sphere.hit_record(s(0.5), v([0.0, 0.0, -0.5]), v([0.0, 0.0, 1.0]), s(-1.0));
    assert!(rec.front_face);
    assert_eq!(f(rec.normal), [0.0, 0.0, 1.0]);
    assert_eq!(fl(rec.t), 0.5);
    assert_eq!(f(rec.p), [0.0, 0.0, -0.5]);
    let rec = sphere.hit_record(s(1.5), v([0.0, 0.0, -1.5]), v([0.0, 0.0, -1.0]), s(1.0));
    assert!(!rec.front_face);
    assert_eq!(f(rec.normal), [-0.0, -0.0, 1.0]);
    let mut rec = rec;
    rec.set_face_normal(s(0.0), v([0.0, 1.0, 0.0]));
    assert!(!rec.front_face);
    assert_eq!(f(rec.normal), [-0.0, -1.0, -0.0]);
    assert_eq!(fl(rec.t), 1.5);
}

#[test]
fn the_centre_shows_the_sphere_and_the_corners_the_sky() {
    let (camera, frame) = small_camera();
    assert_eq!(frame.image_height, 21);
    let world = HittableList::from_object(ball([0.0, 0.0, -1.0], 0.5, grey()));
    let centre = get_ray(&camera, &frame, 10, 10, [0.0, 0.0]);
    let rec = world.hit(&centre, search_range()).unwrap();
    assert!((fl(rec.t) * length(f(centre.direction())) - 0.5).abs() < 1e-9);
    assert!(rec.front_face);
    let shown = pixel(&camera, &frame, &world, 10, 10, 1);
    let background = sky(&centre);
    assert!(length(sub(shown, background)) > 0.05);
    for (i, j) in [(0, 0), (20, 0), (0, 20), (20, 20)] {
        let r = get_ray(&camera, &frame, i, j, [0.0, 0.0]);
        assert!(world.hit(&r, search_range()).is_none());
        let mut rng = StdRng::seed_from_u64(3);
        assert_eq!(ray_color(r, camera.max_depth, &world, &mut rng), sky(&r));
        assert_eq!(
            step(camera.max_depth, classify(false, false)),
            Step::Finished(PathEnd::Environment)
        );
    }
}

#[test]
fn an_empty_scene_shows_the_environment_everywhere() {
    let (camera, frame) = small_camera();
    let world: Scene = HittableList::new();
    let mut rng = StdRng::seed_from_u64(5);
    for (i, j) in [(0, 0), (10, 10), (20, 3), (7, 19)] {
        let r = get_ray(&camera, &frame, i, j, [0.25, -0.25]);
        assert_eq!(ray_color(r, 10, &world, &mut rng), sky(&r));
        assert_eq!(ray_color(r, 1, &world, &mut rng), sky(&r));
        assert_eq!(ray_color(r, 0, &world, &mut rng), [0.0, 0.0, 0.0]);
    }
}

#[test]
fn no_depth_is_black_in_any_scene() {
    let (camera, frame) = small_camera();
    let mut world = HittableList::from_object(ball([0.0, 0.0, -1.0], 0.5, grey()));
    world.add(ball([0.0, -100.5, -1.0], 100.0, Material::Metal(Metal::new(v([0.8, 0.8, 0.8]), s(0.1)))));
    let mut rng = StdRng::seed_from_u64(6);
    for (i, j) in [(0, 0), (10, 10), (10, 20)] {
        let r = get_ray(&camera, &frame, i, j, [0.0, 0.0]);
        assert_eq!(ray_color(r, 0, &world, &mut rng), [0.0, 0.0, 0.0]);
        assert_eq!(ray_color(r, -2, &world, &mut rng), [0.0, 0.0, 0.0]);
    }
}

#[test]
fn two_random_sources_agree_within_tolerance() {
    let (camera, frame) = small_camera();
    let mut world = HittableList::from_object(ball([0.0, 0.0, -1.0], 0.5, grey()));
    world.add(ball([0.0, -100.5, -1.0], 100.0, Material::Lambertian(Lambertian::new(v([0.8, 0.8, 0.0])))));
    world.add(ball([1.0, 0.0, -1.0], 0.5, Material::Metal(Metal::new(v([0.8, 0.6, 0.2]), s(0.3)))));
    world.add(ball([-1.0, 0.0, -1.0], 0.5, Material::Dielectric(Dielectric::new(s(1.5)))));
    for (i, j) in [(10, 10), (3, 4), (16, 12), (10, 18)] {
        let first = pixel(&camera, &frame, &world, i, j, 1001);
        let second = pixel(&camera, &frame, &world, i, j, 2002);
        for c in 0..3 {
            assert!(first[c] >= 0.0 && first[c] <= 1.0);
            assert!((first[c] - second[c]).abs() < 0.15, "{:?} {:?}", first, second);
        }
    }
}
