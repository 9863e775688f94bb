//! The EWKB codec: OGC Well-Known Binary with the PostGIS SRID extension.
//!
//! Every self-describing geometry starts with a header: one order byte
//! (`0` = big-endian, anything else = little-endian), a 32-bit type-id word
//! whose low byte names the geometry kind and whose high bits flag SRID, M
//! and Z presence, and, when the SRID bit is set, a 32-bit signed SRID.

pub mod container;
pub mod encoding;
pub mod geometry;
pub mod laws;
pub mod point;

use crate::error::Error;
use encoding::{
    i32_le_bytes, spec_read_byte, spec_read_i32, spec_read_u32, u32_le_bytes,
};
use vstd::prelude::*;
use vstd::string::StringSliceAdditionalSpecFns;

pub use container::{
    EwkbLineString, EwkbMultiPoint, LineString, LineStringM, LineStringModel, LineStringT,
    LineStringZ, LineStringZM, MultiPoint, MultiPointM, MultiPointModel, MultiPointT, MultiPointZ,
    MultiPointZM,
};
pub use geometry::{
    EwkbGeometry, EwkbGeometryCollection, EwkbMultiLineString, EwkbMultiPolygon, EwkbPolygon,
    Geometry, GeometryCollection, GeometryCollectionM, GeometryCollectionModel,
    GeometryCollectionT, GeometryCollectionZ, GeometryCollectionZM, GeometryM, GeometryModel,
    GeometryT, GeometryType, GeometryZ, GeometryZM, MultiLineString, MultiLineStringM,
    MultiLineStringModel, MultiLineStringT, MultiLineStringZ, MultiLineStringZM, MultiPolygon,
    MultiPolygonM, MultiPolygonModel, MultiPolygonT, MultiPolygonZ, MultiPolygonZM, Polygon,
    PolygonM, PolygonModel, PolygonT, PolygonZ, PolygonZM,
};
pub use point::{AsEwkbPoint, EwkbPoint, Point, PointM, PointType, PointZ, PointZM};

verus! {

// --- The type-id bit-flag protocol ---

/// The Z-presence flag of a type-id word.
pub open spec fn spec_has_z(type_id: u32) -> bool {
    type_id & 0x8000_0000u32 == 0x8000_0000u32
}

/// The M-presence flag of a type-id word.
pub open spec fn spec_has_m(type_id: u32) -> bool {
    type_id & 0x4000_0000u32 == 0x4000_0000u32
}

/// The SRID-presence flag of a type-id word.
pub open spec fn spec_has_srid(type_id: u32) -> bool {
    type_id & 0x2000_0000u32 == 0x2000_0000u32
}

/// Whether a type-id word flags a Z coordinate.
pub fn has_z(type_id: u32) -> (r: bool)
    ensures
        r == spec_has_z(type_id),
{
    type_id & 0x80000000 == 0x80000000
}

/// Whether a type-id word flags an M coordinate.
pub fn has_m(type_id: u32) -> (r: bool)
    ensures
        r == spec_has_m(type_id),
{
    type_id & 0x40000000 == 0x40000000
}

/// Whether a point shape has a Z coordinate.
pub open spec fn spec_type_has_z(t: PointType) -> bool {
    t == PointType::PointZ || t == PointType::PointZM
}

/// Whether a point shape has an M coordinate.
pub open spec fn spec_type_has_m(t: PointType) -> bool {
    t == PointType::PointM || t == PointType::PointZM
}

/// The flag bits of a type-id word: SRID presence and the Z/M bits of the
/// point shape. The geometry kind is or-ed into the low byte by each writer.
pub open spec fn spec_wkb_type_id(t: PointType, has_srid: bool) -> u32 {
    (if has_srid {
        0x2000_0000u32
    } else {
        0u32
    }) | (if spec_type_has_z(t) {
        0x8000_0000u32
    } else {
        0u32
    }) | (if spec_type_has_m(t) {
        0x4000_0000u32
    } else {
        0u32
    })
}

// --- The geometry header ---

/// The bytes of a geometry header as every writer of this format emits it:
/// little-endian order byte `0x01`, the type-id word, then the SRID if one
/// is present.
pub open spec fn spec_header_bytes(type_id: u32, srid: Option<i32>) -> Seq<u8> {
    seq![1u8] + u32_le_bytes(type_id) + match srid {
        Some(s) => i32_le_bytes(s),
        None => Seq::<u8>::empty(),
    }
}

/// Parses a geometry header: order byte, type-id word, and the SRID when the
/// type-id's SRID bit is set. Yields `(is_big_endian, type_id, srid)` and the
/// position just past the header.
pub open spec fn spec_read_header(bytes: Seq<u8>, pos: int) -> Result<
    ((bool, u32, Option<i32>), int),
    Error,
> {
    match spec_read_byte(bytes, pos) {
        Ok((order, p1)) => {
            let is_be = order == 0;
            match spec_read_u32(bytes, p1, is_be) {
                Ok((type_id, p2)) => if spec_has_srid(type_id) {
                    match spec_read_i32(bytes, p2, is_be) {
                        Ok((srid, p3)) => Ok(((is_be, type_id, Some(srid)), p3)),
                        Err(e) => Err(e),
                    }
                } else {
                    Ok(((is_be, type_id, None), p2))
                },
                Err(e) => Err(e),
            }
        },
        Err(e) => Err(e),
    }
}

/// Reads a geometry header and advances the cursor.
pub(crate) fn read_header(raw: &Vec<u8>, pos: &mut usize) -> (r: Result<
    (bool, u32, Option<i32>),
    Error,
>)
    requires
        *old(pos) <= raw@.len(),
    ensures
        match spec_read_header(raw@, *old(pos) as int) {
            Ok(vp) => r == Ok::<(bool, u32, Option<i32>), Error>(vp.0) && *final(pos) as int == vp.1,
            Err(e) => r == Err::<(bool, u32, Option<i32>), Error>(e),
        },
        *old(pos) <= *final(pos) <= raw@.len(),
{
    let order = match encoding::read_byte(raw, pos) {
        Ok(b) => b,
        Err(e) => {
            return Err(e);
        },
    };
    let is_be = order == 0;
    let type_id = match encoding::read_u32(raw, pos, is_be) {
        Ok(v) => v,
        Err(e) => {
            return Err(e);
        },
    };
    if type_id & 0x20000000 == 0x20000000 {
        match encoding::read_i32(raw, pos, is_be) {
            Ok(srid) => Ok((is_be, type_id, Some(srid))),
            Err(e) => Err(e),
        }
    } else {
        Ok((is_be, type_id, None))
    }
}

// --- Reading ---

/// Reading a self-describing geometry: header first, then the kind-specific
/// body. The generic geometry type dispatches the whole read on the kind;
/// every concrete type reads header-then-body.
///
/// The parse is specified against the type's mathematical view (`Self::V`):
/// a point is its own view, a container's view holds a `Seq` in place of its
/// `Vec`.
pub trait EwkbRead: View + Sized {
    /// The point shape this type is built over.
    spec fn spec_point_type() -> PointType;

    /// What `read_ewkb` parses, as a function of the byte stream.
    spec fn spec_read(bytes: Seq<u8>, pos: int) -> Result<(Self::V, int), Error>;

    /// What `read_ewkb_body` parses: the body alone, under an already-read
    /// header's byte order, type-id word and SRID.
    spec fn spec_read_body(bytes: Seq<u8>, pos: int, is_be: bool, type_id: u32, srid: Option<
        i32,
    >) -> Result<(Self::V, int), Error>;

    fn point_type() -> (t: PointType)
        ensures
            t == Self::spec_point_type(),
    ;

    /// Decodes one self-describing geometry starting at `*pos`, leaving the
    /// cursor just past it on success.
    fn read_ewkb(raw: &Vec<u8>, pos: &mut usize) -> (r: Result<Self, Error>)
        requires
            *old(pos) <= raw@.len(),
        ensures
            match Self::spec_read(raw@, *old(pos) as int) {
                Ok(vp) => r is Ok && r->Ok_0@ == vp.0 && *final(pos) as int == vp.1,
                Err(e) => r is Err && r->Err_0 == e,
            },
            *old(pos) <= *final(pos) <= raw@.len(),
    ;

    /// Decodes the body of a geometry whose header was already read.
    fn read_ewkb_body(raw: &Vec<u8>, pos: &mut usize, is_be: bool, type_id: u32, srid: Option<
        i32,
    >) -> (r: Result<Self, Error>)
        requires
            *old(pos) <= raw@.len(),
        ensures
            match Self::spec_read_body(raw@, *old(pos) as int, is_be, type_id, srid) {
                Ok(vp) => r is Ok && r->Ok_0@ == vp.0 && *final(pos) as int == vp.1,
                Err(e) => r is Err && r->Err_0 == e,
            },
            *old(pos) <= *final(pos) <= raw@.len(),
    ;
}

// --- Writing helpers ---

/// The flag bits of a type-id word, computed from the point shape and SRID
/// presence.
pub(crate) fn wkb_flags(point_type: &PointType, has_srid: bool) -> (r: u32)
    ensures
        r == spec_wkb_type_id(*point_type, has_srid),
{
    let srid_flag: u32 = if has_srid {
        0x20000000
    } else {
        0
    };
    let z_flag: u32 = if *point_type == PointType::PointZ || *point_type == PointType::PointZM {
        0x80000000
    } else {
        0
    };
    let m_flag: u32 = if *point_type == PointType::PointM || *point_type == PointType::PointZM {
        0x40000000
    } else {
        0
    };
    srid_flag | z_flag | m_flag
}

/// The uppercase hexadecimal digit for a value below 16.
pub open spec fn spec_hex_digit(n: u8) -> char {
    if n < 10 {
        ((n + 48) as char)
    } else {
        ((n + 55) as char)
    }
}

/// The uppercase, unseparated, two-digits-per-byte hexadecimal text of a
/// byte sequence.
pub open spec fn spec_hex_upper(bytes: Seq<u8>) -> Seq<char> {
    Seq::new(
        bytes.len() * 2,
        |i: int|
            if i % 2 == 0 {
                spec_hex_digit(bytes[i / 2] / 16)
            } else {
                spec_hex_digit(bytes[i / 2] % 16)
            },
    )
}

/// Relies on `String::push`: appends exactly the one character to the string.
#[verifier::external_body]
fn push_char(s: &mut String, c: char)
    ensures
        final(s)@ == old(s)@.push(c),
{
    s.push(c);
}

/// The uppercase hexadecimal digit for a value below 16.
fn hex_digit(n: u8) -> (c: char)
    requires
        n < 16,
    ensures
        c == spec_hex_digit(n),
{
    if n < 10 {
        (n + 48) as char
    } else {
        (n + 55) as char
    }
}

/// Renders bytes as uppercase hexadecimal text.
pub(crate) fn to_hex(bytes: &Vec<u8>) -> (r: String)
    ensures
        r@ == spec_hex_upper(bytes@),
{
    let mut s = String::new();
    let mut i: usize = 0;
    while i < bytes.len()
        invariant
            i <= bytes@.len(),
            s@ =~= spec_hex_upper(bytes@.take(i as int)),
        decreases bytes@.len() - i,
    {
        let b = bytes[i];
        let hi = hex_digit(b / 16);
        let lo = hex_digit(b % 16);
        push_char(&mut s, hi);
        push_char(&mut s, lo);
        i = i + 1;
        proof {
            assert(s@ =~= spec_hex_upper(bytes@.take(i as int)));
        }
    }
    proof {
        assert(bytes@.take(bytes@.len() as int) =~= bytes@);
    }
    s
}

// --- Hexadecimal text ---

/// Whether a byte is the ASCII code of an uppercase hexadecimal digit.
pub open spec fn spec_is_hex_byte(b: u8) -> bool {
    (48 <= b && b <= 57) || (65 <= b && b <= 70)
}

/// The value of an uppercase hexadecimal digit given as its ASCII code.
pub open spec fn spec_hex_byte_val(b: u8) -> u8 {
    if b <= 57 {
        (b - 48) as u8
    } else {
        (b - 55) as u8
    }
}

/// The bytes denoted by hexadecimal text (as ASCII codes), two digits per
/// byte.
pub open spec fn spec_hex_to_bytes(s: Seq<u8>) -> Seq<u8> {
    Seq::new(
        s.len() / 2,
        |i: int| (spec_hex_byte_val(s[2 * i]) * 16 + spec_hex_byte_val(s[2 * i + 1])) as u8,
    )
}

/// Decodes uppercase hexadecimal text into the bytes it denotes.
pub fn hex_to_vec(hexstr: &str) -> (r: Vec<u8>)
    requires
        hexstr.spec_bytes().len() % 2 == 0,
        forall|i: int|
            0 <= i < hexstr.spec_bytes().len() ==> spec_is_hex_byte(#[trigger] hexstr.spec_bytes()[i]),
    ensures
        r@ == spec_hex_to_bytes(hexstr.spec_bytes()),
{
    let bytes = hexstr.as_bytes();
    let n = bytes.len();
    let mut out: Vec<u8> = Vec::new();
    let mut i: usize = 0;
    while i + 1 < n
        invariant
            bytes@ == hexstr.spec_bytes(),
            n == bytes@.len(),
            n % 2 == 0,
            i % 2 == 0,
            i <= n,
            forall|j: int| 0 <= j < n ==> spec_is_hex_byte(#[trigger] bytes@[j]),
            out@ =~= spec_hex_to_bytes(bytes@.take(i as int)),
        decreases n - i,
    {
        let c0 = bytes[i];
        let c1 = bytes[i + 1];
        let hb = if c0 <= 57 {
            c0 - 48
        } else {
            c0 - 55
        };
        let lb = if c1 <= 57 {
            c1 - 48
        } else {
            c1 - 55
        };
        out.push(hb * 16 + lb);
        i = i + 2;
        proof {
            assert(out@ =~= spec_hex_to_bytes(bytes@.take(i as int)));
        }
    }
    proof {
        assert(bytes@.take(n as int) =~= bytes@);
    }
    out
}

/// Writing a geometry: the header fields it advertises, its body bytes, and
/// the full write as header plus body. Implemented by the borrowing write
/// adapters, which pair a borrowed geometry with the SRID and point shape to
/// serialize it under.
pub trait EwkbWrite: Sized {
    /// The full type-id word this value writes: kind plus flag bits.
    spec fn spec_type_id(&self) -> u32;

    /// The SRID this value writes, if any.
    spec fn spec_opt_srid(&self) -> Option<i32>;

    /// The body bytes this value writes after its header.
    spec fn spec_body_bytes(&self) -> Seq<u8>;

    fn opt_srid(&self) -> (r: Option<i32>)
        ensures
            r == self.spec_opt_srid(),
    ;

    fn type_id(&self) -> (r: u32)
        ensures
            r == self.spec_type_id(),
    ;

    /// The flag bits contributed by the point shape and SRID presence.
    fn wkb_type_id(point_type: &PointType, srid: Option<i32>) -> (r: u32)
        ensures
            r == spec_wkb_type_id(*point_type, srid is Some),
    {
        wkb_flags(point_type, srid.is_some())
    }

    /// Appends this geometry's full encoding: little-endian order byte,
    /// type-id word, SRID if present, then the body.
    fn write_ewkb(&self, w: &mut Vec<u8>)
        ensures
            final(w)@ == old(w)@ + spec_header_bytes(self.spec_type_id(), self.spec_opt_srid())
                + self.spec_body_bytes(),
    {
        w.push(0x01);
        let type_id = self.type_id();
        encoding::write_u32_le(w, type_id);
        match self.opt_srid() {
            Some(srid) => encoding::write_i32_le(w, srid),
            None => (),
        }
        self.write_ewkb_body(w);
        proof {
            assert(w@ =~= old(w)@ + spec_header_bytes(self.spec_type_id(), self.spec_opt_srid())
                + self.spec_body_bytes());
        }
    }

    /// Appends this geometry's body bytes.
    fn write_ewkb_body(&self, w: &mut Vec<u8>)
        ensures
            final(w)@ == old(w)@ + self.spec_body_bytes(),
    ;

    /// This geometry's full encoding as uppercase hexadecimal text.
    fn to_hex_ewkb(&self) -> (r: String)
        ensures
            r@ == spec_hex_upper(
                spec_header_bytes(self.spec_type_id(), self.spec_opt_srid())
                    + self.spec_body_bytes(),
            ),
    {
        let mut buf: Vec<u8> = Vec::new();
        self.write_ewkb(&mut buf);
        to_hex(&buf)
    }
}

} // verus!
