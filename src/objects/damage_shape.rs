//! An object representing a three-dimensional damage or attack shape.
use vstd::prelude::*;
use crate::objects::base::Base;
use crate::objects::shape::Shape3;
use crate::version::{Version, Versioned};
use crate::wire::{DecodeError, Endian, RecordKind, Wire};

verus! {

/// An object representing a three-dimensional damage or attack shape.
#[derive(Debug)]
pub enum DamageShape {
    /// The first and only layout.
    V1 {
        /// The common data of the object.
        base: Versioned<Base>,
        /// The shape.
        shape: Versioned<Shape3>,
        /// Whether the shape attacks.
        is_damager: bool,
        /// An identifier.
        id: u32,
    },
}

impl Version for DamageShape {
    open spec fn spec_version(&self) -> u8 {
        match self {
            DamageShape::V1 { .. } => 1,
        }
    }

    open spec fn spec_supported(version: u8) -> bool {
        version == 1
    }

    open spec fn spec_kind() -> RecordKind {
        RecordKind::DamageShape
    }

    closed spec fn wf(&self) -> bool {
        match self {
            DamageShape::V1 { base, shape, is_damager, id } => (*base, (*shape, (*is_damager, *id))).wf(),
        }
    }

    closed spec fn spec_bytes(&self, e: Endian) -> Seq<u8> {
        match self {
            DamageShape::V1 { base, shape, is_damager, id } => (*base, (*shape, (*is_damager, *id))).spec_bytes(e),
        }
    }

    closed spec fn spec_accepts(&self, e: Endian, s: Seq<u8>) -> bool {
        match self {
            DamageShape::V1 { base, shape, is_damager, id } => (*base, (*shape, (*is_damager, *id))).spec_accepts(e, s),
        }
    }

    closed spec fn same(&self, other: &Self) -> bool {
        match (self, other) {
            (DamageShape::V1 { base, shape, is_damager, id }, DamageShape::V1 { base: o_base, shape: o_shape, is_damager: o_is_damager, id: o_id }) => (*base, (*shape, (*is_damager, *id))).same(&(*o_base, (*o_shape, (*o_is_damager, *o_id)))),
        }
    }

    proof fn lemma_canonical(&self, e: Endian) {
        match self {
            DamageShape::V1 { base, shape, is_damager, id } => (*base, (*shape, (*is_damager, *id))).lemma_canonical(e),
        }
    }

    fn version(&self) -> (r: u8) {
        match self {
            DamageShape::V1 { .. } => 1,
        }
    }

    fn decode_payload(version: u8, e: Endian, buf: &[u8], pos: usize) -> (r: Result<(Self, usize), DecodeError>) {
        match version {
            1 => {
                match <(Versioned<Base>, (Versioned<Shape3>, (bool, u32)))>::decode(e, buf, pos) {
                    Ok(((base, (shape, (is_damager, id))), end)) => Ok((DamageShape::V1 { base, shape, is_damager, id }, end)),
                    Err(err) => Err(err),
                }
            },
            _ => Err(DecodeError::UnsupportedVersion { record: RecordKind::DamageShape, version, pos }),
        }
    }

    fn encode_payload(&self, e: Endian, out: &mut Vec<u8>) {
        match self {
            DamageShape::V1 { base, shape, is_damager, id } => {
                base.encode(e, out);
                shape.encode(e, out);
                is_damager.encode(e, out);
                id.encode(e, out);
                proof {
                    assert(final(out)@ =~= old(out)@ + (*base, (*shape, (*is_damager, *id))).spec_bytes(e));
                }
            },
        }
    }
}

} // verus!
