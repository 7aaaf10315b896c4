//! Pokemon Trainer ranges and floors.
use vstd::prelude::*;
use crate::array::Array;
use crate::objects::base::Base;
use crate::string::FixedString64;
use crate::vector::Vector3;
use crate::version::{Version, Versioned};
use crate::wire::{DecodeError, Endian, RecordKind, Wire};

verus! {

/// The range in which a Pokemon Trainer moves.
#[derive(Debug)]
pub enum PTrainerRange {
    /// The first layout.
    V1 {
        /// The common data of the object.
        base: Versioned<Base>,
        /// The lower bound of the range.
        range_min: Versioned<Vector3>,
        /// The upper bound of the range.
        range_max: Versioned<Vector3>,
        /// The start positions of the trainers.
        trainers: Versioned<Array<Vector3>>,
    },
    /// Adds the parent model and joint.
    V4 {
        /// The common data of the object.
        base: Versioned<Base>,
        /// The lower bound of the range.
        range_min: Versioned<Vector3>,
        /// The upper bound of the range.
        range_max: Versioned<Vector3>,
        /// The start positions of the trainers.
        trainers: Versioned<Array<Vector3>>,
        /// The name of the parent model.
        parent_model_name: Versioned<FixedString64>,
        /// The name of the parent joint.
        parent_joint_name: Versioned<FixedString64>,
    },
}

impl Version for PTrainerRange {
    open spec fn spec_version(&self) -> u8 {
        match self {
            PTrainerRange::V1 { .. } => 1,
            PTrainerRange::V4 { .. } => 4,
        }
    }

    open spec fn spec_supported(version: u8) -> bool {
        version == 1 || version == 4
    }

    open spec fn spec_kind() -> RecordKind {
        RecordKind::PTrainerRange
    }

    closed spec fn wf(&self) -> bool {
        match self {
            PTrainerRange::V1 { base, range_min, range_max, trainers } => (*base, (*range_min, (*range_max, *trainers))).wf(),
            PTrainerRange::V4 { base, range_min, range_max, trainers, parent_model_name, parent_joint_name } => (*base, (*range_min, (*range_max, (*trainers, (*parent_model_name, *parent_joint_name))))).wf(),
        }
    }

    closed spec fn spec_bytes(&self, e: Endian) -> Seq<u8> {
        match self {
            PTrainerRange::V1 { base, range_min, range_max, trainers } => (*base, (*range_min, (*range_max, *trainers))).spec_bytes(e),
            PTrainerRange::V4 { base, range_min, range_max, trainers, parent_model_name, parent_joint_name } => (*base, (*range_min, (*range_max, (*trainers, (*parent_model_name, *parent_joint_name))))).spec_bytes(e),
        }
    }

    closed spec fn spec_accepts(&self, e: Endian, s: Seq<u8>) -> bool {
        match self {
            PTrainerRange::V1 { base, range_min, range_max, trainers } => (*base, (*range_min, (*range_max, *trainers))).spec_accepts(e, s),
            PTrainerRange::V4 { base, range_min, range_max, trainers, parent_model_name, parent_joint_name } => (*base, (*range_min, (*range_max, (*trainers, (*parent_model_name, *parent_joint_name))))).spec_accepts(e, s),
        }
    }

    closed spec fn same(&self, other: &Self) -> bool {
        match (self, other) {
            (PTrainerRange::V1 { base, range_min, range_max, trainers }, PTrainerRange::V1 { base: o_base, range_min: o_range_min, range_max: o_range_max, trainers: o_trainers }) => (*base, (*range_min, (*range_max, *trainers))).same(&(*o_base, (*o_range_min, (*o_range_max, *o_trainers)))),
            (PTrainerRange::V4 { base, range_min, range_max, trainers, parent_model_name, parent_joint_name }, PTrainerRange::V4 { base: o_base, range_min: o_range_min, range_max: o_range_max, trainers: o_trainers, parent_model_name: o_parent_model_name, parent_joint_name: o_parent_joint_name }) => (*base, (*range_min, (*range_max, (*trainers, (*parent_model_name, *parent_joint_name))))).same(&(*o_base, (*o_range_min, (*o_range_max, (*o_trainers, (*o_parent_model_name, *o_parent_joint_name)))))),
            _ => false,
        }
    }

    proof fn lemma_canonical(&self, e: Endian) {
        match self {
            PTrainerRange::V1 { base, range_min, range_max, trainers } => (*base, (*range_min, (*range_max, *trainers))).lemma_canonical(e),
            PTrainerRange::V4 { base, range_min, range_max, trainers, parent_model_name, parent_joint_name } => (*base, (*range_min, (*range_max, (*trainers, (*parent_model_name, *parent_joint_name))))).lemma_canonical(e),
        }
    }

    fn version(&self) -> (r: u8) {
        match self {
            PTrainerRange::V1 { .. } => 1,
            PTrainerRange::V4 { .. } => 4,
        }
    }

    fn decode_payload(version: u8, e: Endian, buf: &[u8], pos: usize) -> (r: Result<(Self, usize), DecodeError>) {
        match version {
            1 => Self::decode_v1(e, buf, pos),
            4 => Self::decode_v4(e, buf, pos),
            _ => Err(DecodeError::UnsupportedVersion { record: RecordKind::PTrainerRange, version, pos }),
        }
    }

    fn encode_payload(&self, e: Endian, out: &mut Vec<u8>) {
        match self {
            PTrainerRange::V1 { .. } => self.encode_v1(e, out),
            PTrainerRange::V4 { .. } => self.encode_v4(e, out),
        }
    }
}

impl PTrainerRange {
    /// Writes the payload of the `V1` variant.
    fn encode_v1(&self, e: Endian, out: &mut Vec<u8>)
        requires
            self is V1,
            self.wf(),
        ensures
            final(out)@ == old(out)@ + self.spec_bytes(e),
    {
        match self {
            PTrainerRange::V1 { base, range_min, range_max, trainers } => {
                base.encode(e, out);
                range_min.encode(e, out);
                range_max.encode(e, out);
                trainers.encode(e, out);
                proof {
                    assert(final(out)@ =~= old(out)@ + (*base, (*range_min, (*range_max, *trainers))).spec_bytes(e));
                }
            },
            _ => {},
        }
    }

    /// Writes the payload of the `V4` variant.
    #[verifier::spinoff_prover]
    #[verifier::rlimit(100)]
    fn encode_v4(&self, e: Endian, out: &mut Vec<u8>)
        requires
            self is V4,
            self.wf(),
        ensures
            final(out)@ == old(out)@ + self.spec_bytes(e),
    {
        match self {
            PTrainerRange::V4 { base, range_min, range_max, trainers, parent_model_name, parent_joint_name } => {
                base.encode(e, out);
                range_min.encode(e, out);
                proof {
                    assert(out@ =~= old(out)@ + (base.spec_bytes(e) + range_min.spec_bytes(e)));
                }
                range_max.encode(e, out);
                proof {
                    assert(out@ =~= old(out)@ + (base.spec_bytes(e) + range_min.spec_bytes(e) + range_max.spec_bytes(e)));
                }
                trainers.encode(e, out);
                proof {
                    assert(out@ =~= old(out)@ + (base.spec_bytes(e) + range_min.spec_bytes(e) + range_max.spec_bytes(e) + trainers.spec_bytes(e)));
                }
                parent_model_name.encode(e, out);
                proof {
                    assert(out@ =~= old(out)@ + (base.spec_bytes(e) + range_min.spec_bytes(e) + range_max.spec_bytes(e) + trainers.spec_bytes(e) + parent_model_name.spec_bytes(e)));
                }
                parent_joint_name.encode(e, out);
                proof {
                    assert(final(out)@ =~= old(out)@ + (*base, (*range_min, (*range_max, (*trainers, (*parent_model_name, *parent_joint_name))))).spec_bytes(e));
                }
            },
            _ => {},
        }
    }

    /// Reads the payload of layout 1.
    fn decode_v1(e: Endian, buf: &[u8], pos: usize) -> (r: Result<(Self, usize), DecodeError>)
        requires
            pos <= buf@.len(),
        ensures
            match r {
                Ok((v, end)) => {
                    &&& v.spec_version() == 1
                    &&& end == pos + v.spec_bytes(e).len()
                    &&& end <= buf@.len()
                    &&& v.wf()
                    &&& v.spec_accepts(e, buf@.subrange(pos as int, end as int))
                },
                Err(_) => true,
            },
            forall|x: Self|
                x.spec_version() == 1 && x.wf() && pos + x.spec_bytes(e).len() <= buf@.len()
                    && #[trigger] x.spec_accepts(e, buf@.subrange(pos as int, pos + x.spec_bytes(e).len()))
                    ==> match r {
                    Ok((v, end)) => v.same(&x) && end == pos + x.spec_bytes(e).len(),
                    Err(_) => false,
                },
    {
        match <(Versioned<Base>, (Versioned<Vector3>, (Versioned<Vector3>, Versioned<Array<Vector3>>)))>::decode(e, buf, pos) {
            Ok(((base, (range_min, (range_max, trainers))), end)) => Ok((PTrainerRange::V1 { base, range_min, range_max, trainers }, end)),
            Err(err) => Err(err),
        }
    }

    /// Reads the payload of layout 4.
    fn decode_v4(e: Endian, buf: &[u8], pos: usize) -> (r: Result<(Self, usize), DecodeError>)
        requires
            pos <= buf@.len(),
        ensures
            match r {
                Ok((v, end)) => {
                    &&& v.spec_version() == 4
                    &&& end == pos + v.spec_bytes(e).len()
                    &&& end <= buf@.len()
                    &&& v.wf()
                    &&& v.spec_accepts(e, buf@.subrange(pos as int, end as int))
                },
                Err(_) => true,
            },
            forall|x: Self|
                x.spec_version() == 4 && x.wf() && pos + x.spec_bytes(e).len() <= buf@.len()
                    && #[trigger] x.spec_accepts(e, buf@.subrange(pos as int, pos + x.spec_bytes(e).len()))
                    ==> match r {
                    Ok((v, end)) => v.same(&x) && end == pos + x.spec_bytes(e).len(),
                    Err(_) => false,
                },
    {
        match <(Versioned<Base>, (Versioned<Vector3>, (Versioned<Vector3>, (Versioned<Array<Vector3>>, (Versioned<FixedString64>, Versioned<FixedString64>)))))>::decode(e, buf, pos) {
            Ok(((base, (range_min, (range_max, (trainers, (parent_model_name, parent_joint_name))))), end)) => Ok((PTrainerRange::V4 { base, range_min, range_max, trainers, parent_model_name, parent_joint_name }, end)),
            Err(err) => Err(err),
        }
    }

}

/// A floating floor for a Pokemon Trainer.
#[derive(Debug)]
pub enum PTrainerFloatingFloor {
    /// The first and only layout.
    V1 {
        /// The common data of the object.
        base: Versioned<Base>,
        /// The position.
        pos: Versioned<Vector3>,
    },
}

impl Version for PTrainerFloatingFloor {
    open spec fn spec_version(&self) -> u8 {
        match self {
            PTrainerFloatingFloor::V1 { .. } => 1,
        }
    }

    open spec fn spec_supported(version: u8) -> bool {
        version == 1
    }

    open spec fn spec_kind() -> RecordKind {
        RecordKind::PTrainerFloatingFloor
    }

    closed spec fn wf(&self) -> bool {
        match self {
            PTrainerFloatingFloor::V1 { base, pos } => (*base, *pos).wf(),
        }
    }

    closed spec fn spec_bytes(&self, e: Endian) -> Seq<u8> {
        match self {
            PTrainerFloatingFloor::V1 { base, pos } => (*base, *pos).spec_bytes(e),
        }
    }

    closed spec fn spec_accepts(&self, e: Endian, s: Seq<u8>) -> bool {
        match self {
            PTrainerFloatingFloor::V1 { base, pos } => (*base, *pos).spec_accepts(e, s),
        }
    }

    closed spec fn same(&self, other: &Self) -> bool {
        match (self, other) {
            (PTrainerFloatingFloor::V1 { base, pos }, PTrainerFloatingFloor::V1 { base: o_base, pos: o_pos }) => (*base, *pos).same(&(*o_base, *o_pos)),
        }
    }

    proof fn lemma_canonical(&self, e: Endian) {
        match self {
            PTrainerFloatingFloor::V1 { base, pos } => (*base, *pos).lemma_canonical(e),
        }
    }

    fn version(&self) -> (r: u8) {
        match self {
            PTrainerFloatingFloor::V1 { .. } => 1,
        }
    }

    fn decode_payload(version: u8, e: Endian, buf: &[u8], pos: usize) -> (r: Result<(Self, usize), DecodeError>) {
        match version {
            1 => {
                match <(Versioned<Base>, Versioned<Vector3>)>::decode(e, buf, pos) {
                    Ok(((base, pos), end)) => Ok((PTrainerFloatingFloor::V1 { base, pos }, end)),
                    Err(err) => Err(err),
                }
            },
            _ => Err(DecodeError::UnsupportedVersion { record: RecordKind::PTrainerFloatingFloor, version, pos }),
        }
    }

    fn encode_payload(&self, e: Endian, out: &mut Vec<u8>) {
        match self {
            PTrainerFloatingFloor::V1 { base, pos } => {
                base.encode(e, out);
                pos.encode(e, out);
                proof {
                    assert(final(out)@ =~= old(out)@ + (*base, *pos).spec_bytes(e));
                }
            },
        }
    }
}

} // verus!
