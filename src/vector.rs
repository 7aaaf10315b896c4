//! Two- and three-dimensional vectors and rectangles.
//!
//! Each component is kept as the bit pattern of an IEEE 754 single-precision number, exactly as
//! stored, so that every value, NaN payloads included, is written back unchanged.
use vstd::prelude::*;
use crate::version::Version;
use crate::wire::{DecodeError, Endian, RecordKind, Wire};

verus! {

/// A two-dimensional vector.
#[derive(Clone, Copy, Debug, PartialEq, Eq, Structural)]
pub enum Vector2 {
    /// The first and only layout.
    V1 {
        /// Bits of the component along the x-axis.
        x: u32,
        /// Bits of the component along the y-axis.
        y: u32,
    },
}

impl Vector2 {
    /// The fields in wire order.
    pub open spec fn fields(&self) -> (u32, u32) {
        match self {
            Vector2::V1 { x, y } => (*x, *y),
        }
    }
}

impl Version for Vector2 {
    open spec fn spec_version(&self) -> u8 {
        1
    }

    open spec fn spec_supported(version: u8) -> bool {
        version == 1
    }

    open spec fn spec_kind() -> RecordKind {
        RecordKind::Vector2
    }

    open spec fn wf(&self) -> bool {
        true
    }

    open spec fn spec_bytes(&self, e: Endian) -> Seq<u8> {
        self.fields().spec_bytes(e)
    }

    open spec fn spec_accepts(&self, e: Endian, s: Seq<u8>) -> bool {
        self.fields().spec_accepts(e, s)
    }

    open spec fn same(&self, other: &Self) -> bool {
        *self == *other
    }

    proof fn lemma_canonical(&self, e: Endian) {
        self.fields().lemma_canonical(e);
    }

    fn version(&self) -> (r: u8) {
        1
    }

    fn decode_payload(version: u8, e: Endian, buf: &[u8], pos: usize) -> (r: Result<(Self, usize), DecodeError>) {
        if version != 1 {
            return Err(DecodeError::UnsupportedVersion { record: RecordKind::Vector2, version, pos });
        }
        match <(u32, u32)>::decode(e, buf, pos) {
            Ok(((x, y), end)) => Ok((Vector2::V1 { x, y }, end)),
            Err(err) => Err(err),
        }
    }

    fn encode_payload(&self, e: Endian, out: &mut Vec<u8>) {
        let Vector2::V1 { x, y } = *self;
        (x, y).encode(e, out);
    }
}

/// A three-dimensional vector.
#[derive(Clone, Copy, Debug, PartialEq, Eq, Structural)]
pub enum Vector3 {
    /// The first and only layout.
    V1 {
        /// Bits of the component along the x-axis.
        x: u32,
        /// Bits of the component along the y-axis.
        y: u32,
        /// Bits of the component along the z-axis.
        z: u32,
    },
}

impl Vector3 {
    /// The fields in wire order.
    pub open spec fn fields(&self) -> (u32, (u32, u32)) {
        match self {
            Vector3::V1 { x, y, z } => (*x, (*y, *z)),
        }
    }
}

impl Version for Vector3 {
    open spec fn spec_version(&self) -> u8 {
        1
    }

    open spec fn spec_supported(version: u8) -> bool {
        version == 1
    }

    open spec fn spec_kind() -> RecordKind {
        RecordKind::Vector3
    }

    open spec fn wf(&self) -> bool {
        true
    }

    open spec fn spec_bytes(&self, e: Endian) -> Seq<u8> {
        self.fields().spec_bytes(e)
    }

    open spec fn spec_accepts(&self, e: Endian, s: Seq<u8>) -> bool {
        self.fields().spec_accepts(e, s)
    }

    open spec fn same(&self, other: &Self) -> bool {
        *self == *other
    }

    proof fn lemma_canonical(&self, e: Endian) {
        self.fields().lemma_canonical(e);
    }

    fn version(&self) -> (r: u8) {
        1
    }

    fn decode_payload(version: u8, e: Endian, buf: &[u8], pos: usize) -> (r: Result<(Self, usize), DecodeError>) {
        if version != 1 {
            return Err(DecodeError::UnsupportedVersion { record: RecordKind::Vector3, version, pos });
        }
        match <(u32, (u32, u32))>::decode(e, buf, pos) {
            Ok(((x, (y, z)), end)) => Ok((Vector3::V1 { x, y, z }, end)),
            Err(err) => Err(err),
        }
    }

    fn encode_payload(&self, e: Endian, out: &mut Vec<u8>) {
        let Vector3::V1 { x, y, z } = *self;
        (x, (y, z)).encode(e, out);
    }
}

/// A two-dimensional rectangle given by its edges.
#[derive(Clone, Copy, Debug, PartialEq, Eq, Structural)]
pub enum Rect {
    /// The first and only layout.
    V1 {
        /// Bits of the coordinate of the left edge.
        left: u32,
        /// Bits of the coordinate of the right edge.
        right: u32,
        /// Bits of the coordinate of the top edge.
        top: u32,
        /// Bits of the coordinate of the bottom edge.
        bottom: u32,
    },
}

impl Rect {
    /// The fields in wire order.
    pub open spec fn fields(&self) -> (u32, (u32, (u32, u32))) {
        match self {
            Rect::V1 { left, right, top, bottom } => (*left, (*right, (*top, *bottom))),
        }
    }
}

impl Version for Rect {
    open spec fn spec_version(&self) -> u8 {
        1
    }

    open spec fn spec_supported(version: u8) -> bool {
        version == 1
    }

    open spec fn spec_kind() -> RecordKind {
        RecordKind::Rect
    }

    open spec fn wf(&self) -> bool {
        true
    }

    open spec fn spec_bytes(&self, e: Endian) -> Seq<u8> {
        self.fields().spec_bytes(e)
    }

    open spec fn spec_accepts(&self, e: Endian, s: Seq<u8>) -> bool {
        self.fields().spec_accepts(e, s)
    }

    open spec fn same(&self, other: &Self) -> bool {
        *self == *other
    }

    proof fn lemma_canonical(&self, e: Endian) {
        self.fields().lemma_canonical(e);
    }

    fn version(&self) -> (r: u8) {
        1
    }

    fn decode_payload(version: u8, e: Endian, buf: &[u8], pos: usize) -> (r: Result<(Self, usize), DecodeError>) {
        if version != 1 {
            return Err(DecodeError::UnsupportedVersion { record: RecordKind::Rect, version, pos });
        }
        match <(u32, (u32, (u32, u32)))>::decode(e, buf, pos) {
            Ok(((left, (right, (top, bottom))), end)) => Ok((Rect::V1 { left, right, top, bottom }, end)),
            Err(err) => Err(err),
        }
    }

    fn encode_payload(&self, e: Endian, out: &mut Vec<u8>) {
        let Rect::V1 { left, right, top, bottom } = *self;
        (left, (right, (top, bottom))).encode(e, out);
    }
}

} // verus!
