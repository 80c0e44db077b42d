//! The drawing model: an ordered collection of entities, each with a layer
//! name and a geometry variant.
//!
//! Coordinates are IEEE 754 double-precision values, held here as their bit
//! patterns (`u64`). The bit pattern determines the numeric value exactly, so
//! the engine's coordinate tests (is a z coordinate zero, is an extrusion
//! direction the +Z unit vector) are stated and proved as integer facts:
//! a double equals 0.0 exactly when its bits are one of the two zero
//! patterns, and equals a nonzero non-NaN constant exactly when its bits are
//! that constant's pattern. Conversion between doubles and bit patterns
//! happens where a drawing file is read and written.

use vstd::prelude::*;

verus! {

/// Bit pattern of +0.0.
pub const POS_ZERO_BITS: u64 = 0x0000_0000_0000_0000;

/// Bit pattern of -0.0, which also compares equal to 0.0.
pub const NEG_ZERO_BITS: u64 = 0x8000_0000_0000_0000;

/// Bit pattern of 1.0, the only pattern that compares equal to 1.0.
pub const ONE_BITS: u64 = 0x3FF0_0000_0000_0000;

/// Bit pattern of the near-zero threshold 1e-6 on a squared segment length.
///
/// A squared length is a sum of squares, so its sign bit is never set unless
/// it is NaN; for such values the IEEE `<` comparison against a positive
/// constant agrees with the unsigned comparison of the bit patterns (NaN
/// patterns exceed every finite positive pattern, and `NaN < c` is false).
pub const LEN_SQ_EPS_BITS: u64 = 0x3EB0_C6F7_A0B5_ED8D;

/// True of the bit patterns whose double compares equal to 0.0.
pub open spec fn z_is_zero(bits: u64) -> bool {
    bits == POS_ZERO_BITS || bits == NEG_ZERO_BITS
}

/// A point or vector: the bit patterns of its three coordinates.
#[derive(Clone, Copy, PartialEq, Eq, Structural)]
pub struct Point3 {
    pub x: u64,
    pub y: u64,
    pub z: u64,
}

/// The given point projected onto the Z=0 plane.
pub open spec fn flat_point(p: Point3) -> Point3 {
    Point3 { x: p.x, y: p.y, z: POS_ZERO_BITS }
}

/// The canonical +Z unit vector (0.0, 0.0, 1.0).
pub open spec fn spec_unit_z() -> Point3 {
    Point3 { x: POS_ZERO_BITS, y: POS_ZERO_BITS, z: ONE_BITS }
}

/// The geometry variants the engine distinguishes; everything else is Other.
pub enum Geometry {
    /// A line segment. `len_sq_bits` is the bit pattern of the squared
    /// Euclidean length of the segment, a datum computed where the drawing
    /// is read, because that arithmetic is floating point. It is carried,
    /// never recomputed, by the engine's passes.
    Line { p1: Point3, p2: Point3, len_sq_bits: u64 },
    Circle { center: Point3 },
    Arc { center: Point3 },
    Polyline { vertices: Vec<Point3> },
    /// Lightweight polyline: its vertices are inherently planar, so only the
    /// extrusion direction matters to the engine.
    LwPolyline { extrusion: Point3 },
    Text { location: Point3 },
    MText { insertion: Point3 },
    /// A block reference.
    Insert,
    Other,
}

/// One drawing element: a layer name and a geometry payload.
pub struct Entity {
    pub layer: String,
    pub geometry: Geometry,
}

} // verus!
