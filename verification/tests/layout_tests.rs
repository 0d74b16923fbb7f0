use embree::aabb::{
    AABB, BOUNDS_OFFSET_ALIGN0, BOUNDS_OFFSET_ALIGN1, BOUNDS_OFFSET_LOWER, BOUNDS_OFFSET_UPPER,
    BOUNDS_WIRE_SIZE,
};
use embree::common::{GeomID, INVALID_ID};
use embree::float_bits::FloatBits;
use embree::point_geometry::DISC_NORMAL_OFFSET;
use embree::ray::{
    Hit, Ray, RayHit, HIT_OFFSET_GEOM_ID, HIT_OFFSET_INST_ID, HIT_OFFSET_NG, HIT_OFFSET_PRIM_ID,
    HIT_OFFSET_U, HIT_OFFSET_V, HIT_WIRE_SIZE, RAY_HIT_WIRE_SIZE, RAY_OFFSET_DIR,
    RAY_OFFSET_FLAGS, RAY_OFFSET_ID, RAY_OFFSET_MASK, RAY_OFFSET_ORIGIN, RAY_OFFSET_TFAR,
    RAY_OFFSET_TIME, RAY_OFFSET_TNEAR, RAY_WIRE_SIZE, WIRE_ALIGNMENT,
};
use embree::vector::{Point3, Vector2, Vector3};

fn fb(x: f32) -> FloatBits {
    FloatBits::from_bits(x.to_bits())
}

fn sample_ray() -> Ray {
    Ray {
        origin: Point3::new(fb(1.0), fb(2.0), fb(3.0)),
        tnear: fb(0.25),
        dir: Vector3::new(fb(-1.0), fb(-2.0), fb(-3.0)),
        time: fb(0.5),
        tfar: fb(100.0),
        mask: 0xaaaa_5555,
        id: 17,
        flags: 29,
    }
}

fn sample_hit() -> Hit {
    Hit {
        Ng: Vector3::new(fb(0.0), fb(0.0), fb(1.0)),
        uv: Vector2::new(fb(0.125), fb(0.75)),
        geom_id: GeomID::new(7),
        prim_id: GeomID::new(11),
        inst_id: GeomID::new(13),
        t: Some(fb(100.0)),
    }
}

#[test]
fn test_ray_layout() {
    let ray = sample_ray();
    let w = ray.to_wire();
    assert_eq!(std::mem::size_of_val(&w), RAY_WIRE_SIZE);
    assert_eq!(RAY_WIRE_SIZE, 48);
    assert_eq!(RAY_OFFSET_ORIGIN, 0);
    assert_eq!(RAY_OFFSET_TNEAR, 12);
    assert_eq!(RAY_OFFSET_DIR, 16);
    assert_eq!(RAY_OFFSET_TIME, 28);
    assert_eq!(RAY_OFFSET_TFAR, 32);
    assert_eq!(RAY_OFFSET_MASK, 36);
    assert_eq!(RAY_OFFSET_ID, 40);
    assert_eq!(RAY_OFFSET_FLAGS, 44);
    assert_eq!(w[RAY_OFFSET_ORIGIN / 4], 1.0f32.to_bits());
    assert_eq!(w[RAY_OFFSET_ORIGIN / 4 + 1], 2.0f32.to_bits());
    assert_eq!(w[RAY_OFFSET_ORIGIN / 4 + 2], 3.0f32.to_bits());
    assert_eq!(w[RAY_OFFSET_TNEAR / 4], 0.25f32.to_bits());
    assert_eq!(w[RAY_OFFSET_DIR / 4], (-1.0f32).to_bits());
    assert_eq!(w[RAY_OFFSET_DIR / 4 + 1], (-2.0f32).to_bits());
    assert_eq!(w[RAY_OFFSET_DIR / 4 + 2], (-3.0f32).to_bits());
    assert_eq!(w[RAY_OFFSET_TIME / 4], 0.5f32.to_bits());
    assert_eq!(w[RAY_OFFSET_TFAR / 4], 100.0f32.to_bits());
    assert_eq!(w[RAY_OFFSET_MASK / 4], 0xaaaa_5555);
    assert_eq!(w[RAY_OFFSET_ID / 4], 17);
    assert_eq!(w[RAY_OFFSET_FLAGS / 4], 29);
}

#[test]
fn test_hit_layout() {
    let hit = sample_hit();
    let w = hit.to_wire();
    assert_eq!(std::mem::size_of_val(&w), HIT_WIRE_SIZE);
    assert_eq!(HIT_WIRE_SIZE, 32);
    assert_eq!(HIT_OFFSET_NG, 0);
    assert_eq!(HIT_OFFSET_U, 12);
    assert_eq!(HIT_OFFSET_V, 16);
    assert_eq!(HIT_OFFSET_GEOM_ID, 20);
    assert_eq!(HIT_OFFSET_PRIM_ID, 24);
    assert_eq!(HIT_OFFSET_INST_ID, 28);
    assert_eq!(w[HIT_OFFSET_NG / 4], 0.0f32.to_bits());
    assert_eq!(w[HIT_OFFSET_NG / 4 + 2], 1.0f32.to_bits());
    assert_eq!(w[HIT_OFFSET_U / 4], 0.125f32.to_bits());
    assert_eq!(w[HIT_OFFSET_V / 4], 0.75f32.to_bits());
    assert_eq!(w[HIT_OFFSET_GEOM_ID / 4], 7);
    assert_eq!(w[HIT_OFFSET_PRIM_ID / 4], 11);
    assert_eq!(w[HIT_OFFSET_INST_ID / 4], 13);
}

#[test]
fn test_bounds_layout() {
    let b = AABB {
        lower: Point3::new(fb(-1.0), fb(-2.0), fb(-3.0)),
        align0: FloatBits::from_bits(0xdead_beef),
        upper: Point3::new(fb(1.0), fb(2.0), fb(3.0)),
        align1: FloatBits::from_bits(0x1234_5678),
    };
    let w = b.to_wire();
    assert_eq!(std::mem::size_of_val(&w), BOUNDS_WIRE_SIZE);
    assert_eq!(BOUNDS_WIRE_SIZE, 32);
    assert_eq!(w[BOUNDS_OFFSET_LOWER / 4], (-1.0f32).to_bits());
    assert_eq!(w[BOUNDS_OFFSET_LOWER / 4 + 1], (-2.0f32).to_bits());
    assert_eq!(w[BOUNDS_OFFSET_LOWER / 4 + 2], (-3.0f32).to_bits());
    assert_eq!(w[BOUNDS_OFFSET_ALIGN0 / 4], 0xdead_beef);
    assert_eq!(w[BOUNDS_OFFSET_UPPER / 4], 1.0f32.to_bits());
    assert_eq!(w[BOUNDS_OFFSET_UPPER / 4 + 1], 2.0f32.to_bits());
    assert_eq!(w[BOUNDS_OFFSET_UPPER / 4 + 2], 3.0f32.to_bits());
    assert_eq!(w[BOUNDS_OFFSET_ALIGN1 / 4], 0x1234_5678);
    assert_eq!(BOUNDS_OFFSET_ALIGN0, 12);
    assert_eq!(BOUNDS_OFFSET_UPPER, 16);
    assert_eq!(BOUNDS_OFFSET_ALIGN1, 28);
}

#[test]
fn wire_sizes_are_multiples_of_the_alignment() {
    assert_eq!(WIRE_ALIGNMENT, 16);
    assert_eq!(RAY_WIRE_SIZE % WIRE_ALIGNMENT, 0);
    assert_eq!(HIT_WIRE_SIZE % WIRE_ALIGNMENT, 0);
    assert_eq!(RAY_HIT_WIRE_SIZE % WIRE_ALIGNMENT, 0);
    assert_eq!(BOUNDS_WIRE_SIZE % WIRE_ALIGNMENT, 0);
    assert_eq!(RAY_HIT_WIRE_SIZE, RAY_WIRE_SIZE + HIT_WIRE_SIZE);
    assert_eq!(RAY_HIT_WIRE_SIZE, 80);
}

#[test]
fn ray_hit_is_the_ray_followed_by_the_hit() {
    let rh = RayHit { ray: sample_ray(), hit: sample_hit() };
    let w = rh.to_wire();
    assert_eq!(std::mem::size_of_val(&w), RAY_HIT_WIRE_SIZE);
    assert_eq!(&w[..12], &rh.ray.to_wire()[..]);
    assert_eq!(&w[12..], &rh.hit.to_wire()[..]);
}

#[test]
fn bounds_round_trip_is_bit_identical() {
    let cases: Vec<[f32; 6]> = vec![
        [0.0, 0.0, 0.0, 0.0, 0.0, 0.0],
        [-0.0, -0.0, -0.0, 0.0, 0.0, 0.0],
        [-1.0, -1.0, -1.0, 1.0, 1.0, 1.0],
        [-10.5, -2.25, -1e-30, -3.0, -1.0, -1e-38],
        [f32::MIN, f32::MIN, f32::MIN, f32::MAX, f32::MAX, f32::MAX],
        [1e-45, 2e-45, 3e-45, 1e38, 2e38, 3e38],
    ];
    for c in cases {
        let b = AABB::new(
            Point3::new(fb(c[0]), fb(c[1]), fb(c[2])),
            Point3::new(fb(c[3]), fb(c[4]), fb(c[5])),
        );
        let w = b.to_wire();
        assert_eq!(
            w,
            [
                c[0].to_bits(),
                c[1].to_bits(),
                c[2].to_bits(),
                0,
                c[3].to_bits(),
                c[4].to_bits(),
                c[5].to_bits(),
                0
            ]
        );
        let back = AABB::from_wire(&w);
        assert_eq!(back.lower.x.to_bits(), c[0].to_bits());
        assert_eq!(back.lower.y.to_bits(), c[1].to_bits());
        assert_eq!(back.lower.z.to_bits(), c[2].to_bits());
        assert_eq!(back.upper.x.to_bits(), c[3].to_bits());
        assert_eq!(back.upper.y.to_bits(), c[4].to_bits());
        assert_eq!(back.upper.z.to_bits(), c[5].to_bits());
        assert_eq!(back.align0.to_bits(), 0);
        assert_eq!(back.align1.to_bits(), 0);
        assert_eq!(back.to_wire(), w);
    }
}

#[test]
fn bounds_wire_round_trip_keeps_every_word() {
    let w: [u32; 8] = [1, 0x8000_0000, 0x7fc0_0000, 0xffff_ffff, 5, 6, 7, 0x0bad_f00d];
    assert_eq!(AABB::from_wire(&w).to_wire(), w);
}

#[test]
fn zero_bounds_are_all_zero_words() {
    assert_eq!(AABB::zero().to_wire(), [0u32; 8]);
}

#[test]
fn ray_round_trip_keeps_every_field() {
    let ray = sample_ray();
    let back = Ray::from_wire(&ray.to_wire());
    assert_eq!(back.to_wire(), ray.to_wire());
    assert_eq!(back.tnear.to_bits(), 0.25f32.to_bits());
    assert_eq!(back.tfar.to_bits(), 100.0f32.to_bits());
    assert_eq!(back.mask, 0xaaaa_5555);
    assert_eq!(back.id, 17);
    assert_eq!(back.flags, 29);
    let w: [u32; 12] = [9, 8, 7, 6, 5, 4, 3, 2, 1, 0, 0xffff_ffff, 0x8000_0000];
    assert_eq!(Ray::from_wire(&w).to_wire(), w);
}

#[test]
fn ray_hit_round_trip_keeps_every_word() {
    let mut w = [0u32; 20];
    for (i, word) in w.iter_mut().enumerate() {
        *word = 0x0101_0101u32.wrapping_mul(i as u32 + 1);
    }
    let rh = RayHit::from_wire(&w);
    assert_eq!(rh.to_wire(), w);
    assert_eq!(rh.hit.geom_id.raw(), w[17]);
    assert_eq!(rh.hit.prim_id.raw(), w[18]);
    assert_eq!(rh.hit.inst_id.raw(), w[19]);
    assert_eq!(rh.hit.t.map(|t| t.to_bits()), Some(w[8]));
}

#[test]
fn a_hit_read_from_the_wire_has_a_distance_only_if_it_names_a_geometry() {
    let mut w = [0u32; 8];
    w[5] = 3;
    let hit = Hit::from_wire(&w, fb(4.0));
    assert!(hit.is_hit());
    assert_eq!(hit.t.map(|t| t.to_bits()), Some(4.0f32.to_bits()));
    w[5] = INVALID_ID;
    let miss = Hit::from_wire(&w, fb(4.0));
    assert!(!miss.is_hit());
    assert!(miss.t.is_none());
}

#[test]
fn the_empty_hit_is_a_miss() {
    let hit = Hit::empty();
    assert!(!hit.is_hit());
    assert!(hit.geom_id.is_invalid());
    assert!(hit.prim_id.is_invalid());
    assert!(hit.inst_id.is_invalid());
    assert!(hit.t.is_none());
    assert_eq!(hit.to_wire(), [0, 0, 0, 0, 0, INVALID_ID, INVALID_ID, INVALID_ID]);
}

#[test]
fn the_disc_normal_follows_position_and_radius() {
    assert_eq!(DISC_NORMAL_OFFSET, 16);
    assert_eq!(DISC_NORMAL_OFFSET % 4, 0);
}

#[test]
fn a_box_converted_to_words_and_back_keeps_every_bit() {
    let cases: Vec<[f32; 6]> = vec![
        [0.0, 0.0, 0.0, 0.0, 0.0, 0.0],
        [-0.0, 0.0, -0.0, 0.0, -0.0, 0.0],
        [-1.5, -2.5, -3.5, 1.5, 2.5, 3.5],
        [-8.0, -4.0, -2.0, -1.0, -0.5, -0.25],
        [f32::MIN, -1e-40, 0.0, 1e-40, 1.0, f32::MAX],
    ];
    for c in cases {
        let lower = Point3::new(fb(c[0]), fb(c[1]), fb(c[2]));
        let upper = Point3::new(fb(c[3]), fb(c[4]), fb(c[5]));
        let w: [u32; 8] = AABB::new(lower, upper).into();
        assert_eq!(w, AABB::new(lower, upper).to_wire());
        let b = AABB::from(w);
        assert_eq!(b.lower.x.to_bits(), c[0].to_bits());
        assert_eq!(b.lower.y.to_bits(), c[1].to_bits());
        assert_eq!(b.lower.z.to_bits(), c[2].to_bits());
        assert_eq!(b.upper.x.to_bits(), c[3].to_bits());
        assert_eq!(b.upper.y.to_bits(), c[4].to_bits());
        assert_eq!(b.upper.z.to_bits(), c[5].to_bits());
        let again: [u32; 8] = b.into();
        assert_eq!(again, w);
    }
}
