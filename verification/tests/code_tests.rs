use embree::common::BuildQuality;
use embree::device::{set_flush_to_zero_mode, Device, DENORMALS_ZERO_ON, FLUSH_ZERO_ON};
use embree::error::{format_error, ErrorKind};
use embree::geometry::{BufferType, GeometryType};
use embree::type_format::{Format, MatrixFormat, TypeFormat};

#[test]
fn build_quality_codes() {
    assert_eq!(i32::from(BuildQuality::Low), 0);
    assert_eq!(i32::from(BuildQuality::Medium), 1);
    assert_eq!(i32::from(BuildQuality::High), 2);
    let code: i32 = BuildQuality::High.into();
    assert_eq!(code, 2);
}

#[test]
fn geometry_type_codes() {
    assert_eq!(i32::from(GeometryType::Triangle), 0);
    assert_eq!(i32::from(GeometryType::Quad), 1);
    assert_eq!(i32::from(GeometryType::Sphere), 50);
    assert_eq!(i32::from(GeometryType::Disc), 52);
    assert_eq!(i32::from(GeometryType::User), 120);
}

#[test]
fn buffer_type_codes() {
    assert_eq!(i32::from(BufferType::Index), 0);
    assert_eq!(i32::from(BufferType::Vertex), 1);
    assert_eq!(i32::from(BufferType::VertexAttribute), 2);
    assert_eq!(i32::from(BufferType::Normal), 3);
}

#[test]
fn format_codes_components_and_sizes() {
    let formats = [
        (Format::u32x1, 0x5001, 1u32),
        (Format::u32x2, 0x5002, 2),
        (Format::u32x3, 0x5003, 3),
        (Format::u32x4, 0x5004, 4),
        (Format::f32x1, 0x9001, 1),
        (Format::f32x2, 0x9002, 2),
        (Format::f32x3, 0x9003, 3),
        (Format::f32x4, 0x9004, 4),
        (Format::f32x5, 0x9005, 5),
        (Format::f32x6, 0x9006, 6),
        (Format::f32x7, 0x9007, 7),
        (Format::f32x8, 0x9008, 8),
        (Format::f32x9, 0x9009, 9),
        (Format::f32x10, 0x900a, 10),
        (Format::f32x11, 0x900b, 11),
        (Format::f32x12, 0x900c, 12),
        (Format::f32x13, 0x900d, 13),
        (Format::f32x14, 0x900e, 14),
        (Format::f32x15, 0x900f, 15),
        (Format::f32x16, 0x9010, 16),
    ];
    for (format, code, components) in formats {
        assert_eq!(i32::from(format), code);
        assert_eq!(format.component_count(), components);
        assert_eq!(format.byte_size(), 4 * components as usize);
    }
}

#[test]
fn matrix_format_codes() {
    assert_eq!(i32::from(MatrixFormat::float3x4RowMajor), 0x9134);
    assert_eq!(i32::from(MatrixFormat::float3x4ColumnMajor), 0x9234);
    assert_eq!(i32::from(MatrixFormat::float4x4ColumnMajor), 0x9244);
    assert_eq!(MatrixFormat::float3x4RowMajor.component_count(), 12);
    assert_eq!(MatrixFormat::float3x4ColumnMajor.component_count(), 12);
    assert_eq!(MatrixFormat::float4x4ColumnMajor.component_count(), 16);
}

#[test]
fn element_types_know_their_format() {
    assert_eq!(<embree::polygon_geometry::Triangle as TypeFormat>::FORMAT, Format::u32x3);
    assert_eq!(<embree::polygon_geometry::Quad as TypeFormat>::FORMAT, Format::u32x4);
    assert_eq!(<embree::triangle_geometry::Triangle as TypeFormat>::FORMAT, Format::u32x3);
    assert_eq!(<embree::vector::Point3 as TypeFormat>::FORMAT, Format::f32x3);
    assert_eq!(<embree::vector::Vector3 as TypeFormat>::FORMAT, Format::f32x3);
    assert_eq!(<embree::vector::Vector2 as TypeFormat>::FORMAT, Format::f32x2);
}

#[test]
fn every_error_code_reads_as_its_kind() {
    assert_eq!(ErrorKind::from_i32(0), ErrorKind::NoError);
    assert_eq!(ErrorKind::from_i32(1), ErrorKind::Unknown);
    assert_eq!(ErrorKind::from_i32(2), ErrorKind::InvalidArgument);
    assert_eq!(ErrorKind::from_i32(3), ErrorKind::InvalidOperation);
    assert_eq!(ErrorKind::from_i32(4), ErrorKind::OutOfMemory);
    assert_eq!(ErrorKind::from_i32(5), ErrorKind::UnsupportedCPU);
    assert_eq!(ErrorKind::from_i32(6), ErrorKind::Cancelled);
}

#[test]
fn unrecognised_error_codes_read_as_unknown() {
    for code in [7, 8, 100, -1, i32::MIN, i32::MAX] {
        assert_eq!(ErrorKind::from_i32(code), ErrorKind::Unknown);
    }
}

#[test]
fn error_kinds_have_names() {
    assert_eq!(ErrorKind::NoError.as_str(), "none");
    assert_eq!(ErrorKind::Unknown.as_str(), "unknown");
    assert_eq!(ErrorKind::InvalidArgument.as_str(), "invalid argument");
    assert_eq!(ErrorKind::InvalidOperation.as_str(), "invalid operation");
    assert_eq!(ErrorKind::OutOfMemory.as_str(), "out of memory");
    assert_eq!(ErrorKind::UnsupportedCPU.as_str(), "unsupported CPU");
    assert_eq!(ErrorKind::Cancelled.as_str(), "cancelled");
    assert_eq!(ErrorKind::OutOfMemory.to_string(), String::from("out of memory"));
}

#[test]
fn error_reports_name_kind_and_message() {
    assert_eq!(format_error(2, "bad stride"), "Embree error invalid argument: bad stride");
    assert_eq!(format_error(99, ""), "Embree error unknown: ");
    assert_eq!(format_error(0, "fine"), "Embree error none: fine");
}

#[test]
fn last_error_is_ok_only_for_code_zero() {
    let device = Device::new(0x1000, 0);
    assert_eq!(device.as_raw(), 0x1000);
    assert_eq!(device.last_error(0), Ok(()));
    assert_eq!(device.last_error(1), Err(ErrorKind::Unknown));
    assert_eq!(device.last_error(4), Err(ErrorKind::OutOfMemory));
    assert_eq!(device.last_error(6), Err(ErrorKind::Cancelled));
    assert_eq!(device.last_error(-3), Err(ErrorKind::Unknown));
}

#[test]
fn flush_to_zero_sets_two_bits_and_keeps_the_rest() {
    assert_eq!(FLUSH_ZERO_ON, 0x8000);
    assert_eq!(DENORMALS_ZERO_ON, 0x0040);
    assert_eq!(set_flush_to_zero_mode(0x1f80), 0x9fc0);
    assert_eq!(set_flush_to_zero_mode(0), 0x8040);
    assert_eq!(set_flush_to_zero_mode(0x8040), 0x8040);
    assert_eq!(set_flush_to_zero_mode(0xffff_ffff), 0xffff_ffff);
    assert_eq!(set_flush_to_zero_mode(0x0000_0001), 0x0000_8041);
}
