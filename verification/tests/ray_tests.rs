use embree::common::{GeomID, INVALID_ID};
use embree::float_bits::FloatBits;
use embree::ray::Ray;
use embree::vector::{Point3, Vector2, Vector3};

fn fb(x: f32) -> FloatBits {
    FloatBits::from_bits(x.to_bits())
}

fn ray(tnear: f32, tfar: f32) -> Ray {
    Ray::new(
        Point3::new(fb(0.0), fb(0.0), fb(5.0)),
        Vector3::new(fb(0.0), fb(0.0), fb(-1.0)),
        fb(tnear),
        fb(tfar),
    )
}

#[test]
fn a_new_ray_is_at_time_zero_and_visible_to_all() {
    let r = ray(0.0, f32::MAX);
    assert_eq!(
        r.to_wire(),
        [
            0.0f32.to_bits(),
            0.0f32.to_bits(),
            5.0f32.to_bits(),
            0.0f32.to_bits(),
            0.0f32.to_bits(),
            0.0f32.to_bits(),
            (-1.0f32).to_bits(),
            0,
            f32::MAX.to_bits(),
            0xffff_ffff,
            0,
            0
        ]
    );
}

#[test]
fn a_ray_may_start_at_negative_zero_and_end_at_infinity() {
    let r = ray(-0.0, f32::INFINITY);
    assert_eq!(r.tnear.to_bits(), (-0.0f32).to_bits());
    assert_eq!(r.tfar.to_bits(), f32::INFINITY.to_bits());
}

#[test]
fn in_range_is_strict_at_both_bounds() {
    let r = ray(1.0, 10.0);
    assert!(r.in_range(fb(4.0)));
    assert!(!r.in_range(fb(1.0)));
    assert!(!r.in_range(fb(10.0)));
    assert!(!r.in_range(fb(0.5)));
    assert!(!r.in_range(fb(10.5)));
    assert!(!r.in_range(fb(-4.0)));
    assert!(!r.in_range(fb(f32::NAN)));
    assert!(!r.in_range(fb(f32::MIN)));
    assert!(r.in_range(FloatBits::from_bits(1.0f32.to_bits() + 1)));
    assert!(r.in_range(FloatBits::from_bits(10.0f32.to_bits() - 1)));
}

#[test]
fn geom_id_sentinel() {
    assert!(GeomID::invalid().is_invalid());
    assert_eq!(GeomID::invalid().raw(), 0xffff_ffff);
    assert_eq!(INVALID_ID, u32::MAX);
    assert!(!GeomID::new(0).is_invalid());
    assert!(!GeomID::new(0xffff_fffe).is_invalid());
    assert!(GeomID::new(0xffff_ffff).is_invalid());
    assert_eq!(GeomID::new(42).unwrap(), 42);
    assert_eq!(GeomID::from(42u32), GeomID::new(42));
    let id: GeomID = 9u32.into();
    assert_eq!(id.raw(), 9);
    assert_ne!(GeomID::new(1), GeomID::new(2));
}

#[test]
fn vectors_start_at_zero() {
    assert_eq!(Point3::origin().x.to_bits(), 0);
    assert_eq!(Point3::origin().y.to_bits(), 0);
    assert_eq!(Point3::origin().z.to_bits(), 0);
    assert_eq!(Vector3::zero().z.to_bits(), 0);
    assert_eq!(Vector2::zero().x.to_bits(), 0);
    assert_eq!(Vector2::zero().y.to_bits(), 0);
    let v = Vector2::new(fb(1.0), fb(2.0));
    assert_eq!(v.x.to_bits(), 1.0f32.to_bits());
    assert_eq!(v.y.to_bits(), 2.0f32.to_bits());
}
