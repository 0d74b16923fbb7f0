use embree::aabb::{Bounds, AABB};
use embree::common::{GeomID, INVALID_ID};
use embree::float_bits::FloatBits;
use embree::geometry::{GeometryCommand, GeometryInternal, GeometryType};
use embree::ray::{Hit, Ray, RayHit};
use embree::scene::{Scene, SceneBuilder};
use embree::user_geometry::{
    apply_prim_hit, CallbackBridge, UserGeometry, UserPrimHit, UserPrimitive,
};
use embree::vector::{Point3, Vector2, Vector3};

fn fb(x: f32) -> FloatBits {
    FloatBits::from_bits(x.to_bits())
}

fn val(x: FloatBits) -> f32 {
    f32::from_bits(x.to_bits())
}

struct UserSphere {
    center: [f32; 3],
    radius: f32,
}

impl UserPrimitive for UserSphere {
    fn intersect(&self, ray: &Ray) -> UserPrimHit {
        let o = [val(ray.origin.x), val(ray.origin.y), val(ray.origin.z)];
        let d = [val(ray.dir.x), val(ray.dir.y), val(ray.dir.z)];
        let v = [o[0] - self.center[0], o[1] - self.center[1], o[2] - self.center[2]];
        let a = d[0] * d[0] + d[1] * d[1] + d[2] * d[2];
        let b = 2.0 * (v[0] * d[0] + v[1] * d[1] + v[2] * d[2]);
        let c = v[0] * v[0] + v[1] * v[1] + v[2] * v[2] - self.radius * self.radius;
        let disc = b * b - 4.0 * a * c;
        if disc < 0.0 {
            return UserPrimHit::miss();
        }
        let q = disc.sqrt();
        for t in [0.5 / a * (-b - q), 0.5 / a * (-b + q)] {
            if ray.in_range(fb(t)) {
                let n = [
                    o[0] + t * d[0] - self.center[0],
                    o[1] + t * d[1] - self.center[1],
                    o[2] + t * d[2] - self.center[2],
                ];
                return UserPrimHit::new(
                    fb(t),
                    Vector3::new(fb(n[0]), fb(n[1]), fb(n[2])),
                    Vector2::zero(),
                );
            }
        }
        UserPrimHit::miss()
    }

    fn bounds(&self) -> Bounds {
        AABB::new(
            Point3::new(
                fb(self.center[0] - self.radius),
                fb(self.center[1] - self.radius),
                fb(self.center[2] - self.radius),
            ),
            Point3::new(
                fb(self.center[0] + self.radius),
                fb(self.center[1] + self.radius),
                fb(self.center[2] + self.radius),
            ),
        )
    }
}

struct Slab {
    t: f32,
}

impl UserPrimitive for Slab {
    fn intersect(&self, _ray: &Ray) -> UserPrimHit {
        UserPrimHit::new(fb(self.t), Vector3::new(fb(0.0), fb(1.0), fb(0.0)), Vector2::zero())
    }

    fn bounds(&self) -> Bounds {
        AABB::zero()
    }
}

fn unit_sphere() -> UserSphere {
    UserSphere { center: [0.0, 0.0, 0.0], radius: 1.0 }
}

fn ray_from(origin: [f32; 3], dir: [f32; 3], tnear: f32, tfar: f32) -> Ray {
    Ray::new(
        Point3::new(fb(origin[0]), fb(origin[1]), fb(origin[2])),
        Vector3::new(fb(dir[0]), fb(dir[1]), fb(dir[2])),
        fb(tnear),
        fb(tfar),
    )
}

fn down_the_z_axis() -> Ray {
    ray_from([0.0, 0.0, 5.0], [0.0, 0.0, -1.0], 0.0, f32::MAX)
}

fn bridge(scene: &Scene, id: GeomID) -> &dyn CallbackBridge {
    match &scene.geometry(id).unwrap().internal {
        GeometryInternal::User(user) => user.object.as_ref(),
        _ => panic!("not a user geometry"),
    }
}

fn scene_with_unit_sphere(id: u32) -> Scene {
    let mut builder = SceneBuilder::new(1);
    let committed = UserGeometry::new(20, vec![unit_sphere()]).build();
    builder.attach(committed.geometry, id);
    builder.build().0
}

fn trace(scene: &Scene, id: GeomID, prim_id: u32, ray: &Ray) -> Hit {
    let (context, words) = scene.intersect_query(ray);
    let mut rayhit = RayHit::from_wire(&words);
    bridge(scene, id).intersect_func(1, -1, prim_id, context.inst_id, &mut rayhit);
    scene.intersect(&rayhit.to_wire())
}

#[test]
fn the_miss_report_is_at_the_smallest_finite_distance() {
    let miss = UserPrimHit::miss();
    assert_eq!(miss.t.to_bits(), f32::MIN.to_bits());
    assert_eq!(miss.Ng.x.to_bits(), 0);
    assert_eq!(miss.Ng.y.to_bits(), 0);
    assert_eq!(miss.Ng.z.to_bits(), 0);
    assert_eq!(miss.uv.x.to_bits(), 0);
    assert_eq!(miss.uv.y.to_bits(), 0);
    let hit = UserPrimHit::new(fb(2.0), Vector3::new(fb(1.0), fb(2.0), fb(3.0)), Vector2::zero());
    assert_eq!(val(hit.t), 2.0);
    assert_eq!(val(hit.Ng.y), 2.0);
}

#[test]
fn a_new_user_geometry_is_unstamped() {
    let geometry = UserGeometry::new(20, vec![unit_sphere(), unit_sphere()]);
    assert_eq!(geometry.handle.as_raw(), 20);
    assert_eq!(geometry.handle.geometry_type(), GeometryType::User);
    assert_eq!(geometry.prims.len(), 2);
    assert!(geometry.prims.iter().all(|r| r.geom_id.is_invalid()));
    assert_eq!(geometry.primitive_count(), 2);
    assert_eq!(geometry.prims[1].prim.radius, 1.0);
}

#[test]
fn a_user_geometry_registers_count_data_and_callbacks() {
    let geometry = UserGeometry::new(20, vec![unit_sphere(), unit_sphere(), unit_sphere()]);
    let registration = vec![
        GeometryCommand::SetUserPrimitiveCount(3),
        GeometryCommand::SetUserData,
        GeometryCommand::SetBoundsFunction,
        GeometryCommand::SetIntersectFunction,
        GeometryCommand::SetOccludedFunction,
    ];
    assert_eq!(geometry.bind_buffers(), registration);
    let committed = geometry.build();
    let mut expected = registration;
    expected.push(GeometryCommand::Commit);
    assert_eq!(committed.commands, expected);
    assert_eq!(committed.geometry.handle().as_raw(), 20);
    assert_eq!(committed.geometry.handle().geometry_type(), GeometryType::User);
    match &committed.geometry.internal {
        GeometryInternal::User(user) => assert_eq!(user.object.primitive_count(), 3),
        _ => panic!("not a user geometry"),
    }
}

#[test]
fn attaching_stamps_the_id_on_every_record() {
    let mut geometry = UserGeometry::new(20, vec![unit_sphere(), unit_sphere()]);
    geometry.set_geom_id(6);
    assert!(geometry.prims.iter().all(|r| r.geom_id == GeomID::new(6)));
    assert_eq!(geometry.prims.len(), 2);
    assert_eq!(geometry.handle.as_raw(), 20);

    let scene = scene_with_unit_sphere(3);
    let hit = trace(&scene, GeomID::new(3), 0, &down_the_z_axis());
    assert_eq!(hit.geom_id, GeomID::new(3));
}

#[test]
fn a_user_sphere_is_hit_head_on() {
    let scene = scene_with_unit_sphere(0);
    let hit = trace(&scene, GeomID::new(0), 0, &down_the_z_axis());
    assert!(hit.is_hit());
    assert_eq!(hit.geom_id, GeomID::new(0));
    assert_eq!(hit.prim_id, GeomID::new(0));
    assert!(hit.inst_id.is_invalid());
    let t = val(hit.t.unwrap());
    assert!((t - 4.0).abs() < 1e-5, "t = {}", t);
    assert!(val(hit.Ng.x).abs() < 1e-5);
    assert!(val(hit.Ng.y).abs() < 1e-5);
    assert!((val(hit.Ng.z) - 1.0).abs() < 1e-5);
}

#[test]
fn a_ray_past_the_user_sphere_is_a_miss() {
    let scene = scene_with_unit_sphere(0);
    let aside = ray_from([3.0, 0.0, 5.0], [0.0, 0.0, -1.0], 0.0, f32::MAX);
    let hit = trace(&scene, GeomID::new(0), 0, &aside);
    assert!(!hit.is_hit());
    assert!(hit.geom_id.is_invalid());
    assert!(hit.t.is_none());
    let away = ray_from([0.0, 0.0, 5.0], [0.0, 0.0, 1.0], 0.0, f32::MAX);
    assert!(!trace(&scene, GeomID::new(0), 0, &away).is_hit());
    let short = ray_from([0.0, 0.0, 5.0], [0.0, 0.0, -1.0], 0.0, 3.0);
    assert!(!trace(&scene, GeomID::new(0), 0, &short).is_hit());
}

#[test]
fn a_miss_leaves_ray_and_hit_untouched() {
    let scene = scene_with_unit_sphere(0);
    let aside = ray_from([3.0, 0.0, 5.0], [0.0, 0.0, -1.0], 0.0, 100.0);
    let (context, words) = scene.intersect_query(&aside);
    let mut rayhit = RayHit::from_wire(&words);
    bridge(&scene, GeomID::new(0)).intersect_func(1, -1, 0, context.inst_id, &mut rayhit);
    assert_eq!(rayhit.to_wire(), words);
}

#[test]
fn an_invalid_ray_is_passed_over() {
    let scene = scene_with_unit_sphere(0);
    let (context, words) = scene.intersect_query(&down_the_z_axis());
    let mut rayhit = RayHit::from_wire(&words);
    bridge(&scene, GeomID::new(0)).intersect_func(1, 0, 0, context.inst_id, &mut rayhit);
    assert_eq!(rayhit.to_wire(), words);
}

#[test]
fn the_bounds_callback_reports_the_primitives_box() {
    let mut builder = SceneBuilder::new(1);
    let prims = vec![unit_sphere(), UserSphere { center: [3.0, -1.0, 0.5], radius: 0.5 }];
    builder.attach(UserGeometry::new(20, prims).build().geometry, 0);
    let (scene, _) = builder.build();
    let object = bridge(&scene, GeomID::new(0));
    let b = object.bounds_func(0);
    assert_eq!(
        b.to_wire(),
        [
            (-1.0f32).to_bits(),
            (-1.0f32).to_bits(),
            (-1.0f32).to_bits(),
            0,
            1.0f32.to_bits(),
            1.0f32.to_bits(),
            1.0f32.to_bits(),
            0
        ]
    );
    let b = object.bounds_func(1);
    assert_eq!(val(b.lower.x), 2.5);
    assert_eq!(val(b.lower.y), -1.5);
    assert_eq!(val(b.lower.z), 0.0);
    assert_eq!(val(b.upper.x), 3.5);
    assert_eq!(val(b.upper.y), -0.5);
    assert_eq!(val(b.upper.z), 1.0);
}

#[test]
fn a_closer_primitive_replaces_a_farther_hit_and_not_the_other_way() {
    let mut builder = SceneBuilder::new(1);
    let slabs = vec![Slab { t: 7.0 }, Slab { t: 3.0 }, Slab { t: 5.0 }];
    builder.attach(UserGeometry::new(20, slabs).build().geometry, 2);
    let (scene, _) = builder.build();
    let object = bridge(&scene, GeomID::new(2));
    let (context, words) = scene.intersect_query(&down_the_z_axis());
    let mut rayhit = RayHit::from_wire(&words);
    object.intersect_func(1, -1, 0, context.inst_id, &mut rayhit);
    assert_eq!(val(rayhit.ray.tfar), 7.0);
    assert_eq!(rayhit.hit.prim_id, GeomID::new(0));
    object.intersect_func(1, -1, 1, context.inst_id, &mut rayhit);
    assert_eq!(val(rayhit.ray.tfar), 3.0);
    assert_eq!(rayhit.hit.prim_id, GeomID::new(1));
    object.intersect_func(1, -1, 2, context.inst_id, &mut rayhit);
    assert_eq!(val(rayhit.ray.tfar), 3.0);
    assert_eq!(rayhit.hit.prim_id, GeomID::new(1));
    let hit = scene.intersect(&rayhit.to_wire());
    assert_eq!(hit.geom_id, GeomID::new(2));
    assert_eq!(hit.t.map(val), Some(3.0));
}

#[test]
fn of_two_primitives_at_one_distance_the_first_stays() {
    let mut rayhit = RayHit { ray: down_the_z_axis(), hit: Hit::empty() };
    let normal = Vector3::new(fb(0.0), fb(0.0), fb(1.0));
    let report = UserPrimHit::new(fb(4.0), normal, Vector2::zero());
    assert!(apply_prim_hit(&mut rayhit, report, 0, GeomID::new(9), INVALID_ID));
    assert_eq!(rayhit.hit.prim_id, GeomID::new(0));
    assert!(!apply_prim_hit(&mut rayhit, report, 1, GeomID::new(9), INVALID_ID));
    assert_eq!(rayhit.hit.prim_id, GeomID::new(0));
    assert_eq!(val(rayhit.ray.tfar), 4.0);
}

#[test]
fn a_report_counts_only_strictly_inside_the_bounds() {
    let base = RayHit { ray: ray_from([0.0; 3], [0.0, 0.0, 1.0], 1.0, 10.0), hit: Hit::empty() };
    let normal = Vector3::new(fb(0.0), fb(0.0), fb(-1.0));
    for (t, counts) in [
        (1.0f32, false),
        (10.0, false),
        (0.5, false),
        (11.0, false),
        (-5.0, false),
        (f32::NAN, false),
        (f32::MIN, false),
        (f32::INFINITY, false),
        (1.0001, true),
        (5.0, true),
        (9.9999, true),
    ] {
        let mut rayhit = base;
        let report = UserPrimHit::new(fb(t), normal, Vector2::new(fb(0.25), fb(0.75)));
        let updated = apply_prim_hit(&mut rayhit, report, 4, GeomID::new(2), 8);
        assert_eq!(updated, counts, "t = {}", t);
        if counts {
            assert_eq!(rayhit.ray.tfar.to_bits(), t.to_bits());
            assert_eq!(val(rayhit.ray.tnear), 1.0);
            assert_eq!(val(rayhit.hit.Ng.z), -1.0);
            assert_eq!(val(rayhit.hit.uv.x), 0.25);
            assert_eq!(val(rayhit.hit.uv.y), 0.75);
            assert_eq!(rayhit.hit.prim_id, GeomID::new(4));
            assert_eq!(rayhit.hit.geom_id, GeomID::new(2));
            assert_eq!(rayhit.hit.inst_id, GeomID::new(8));
            assert_eq!(rayhit.hit.t.map(|x| x.to_bits()), Some(t.to_bits()));
        } else {
            assert_eq!(rayhit.to_wire(), base.to_wire());
            assert!(rayhit.hit.t.is_none());
        }
    }
}

#[test]
fn a_report_on_an_unattached_geometry_names_no_geometry() {
    let mut rayhit = RayHit { ray: down_the_z_axis(), hit: Hit::empty() };
    let report = UserPrimHit::new(fb(4.0), Vector3::zero(), Vector2::zero());
    assert!(apply_prim_hit(&mut rayhit, report, 0, GeomID::invalid(), INVALID_ID));
    assert_eq!(val(rayhit.ray.tfar), 4.0);
    assert!(!rayhit.hit.is_hit());
    assert!(rayhit.hit.t.is_none());
}
