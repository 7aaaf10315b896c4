//! An object representing where enemies are generated.
use vstd::prelude::*;
use crate::array::Array;
use crate::objects::base::Base;
use crate::objects::shape::ShapeArray2;
use crate::tag::Tag;
use crate::version::{Version, Versioned};
use crate::wire::{DecodeError, Endian, RecordKind, Wire};

verus! {

/// An object representing where enemies are generated.
#[derive(Debug)]
pub enum EnemyGenerator {
    /// The first layout.
    V1 {
        /// The common data of the object.
        base: Versioned<Base>,
        /// The shapes where enemies appear.
        appear_shapes: Versioned<ShapeArray2>,
        /// The shapes that trigger the generator.
        trigger_shapes: Versioned<ShapeArray2>,
        /// Unidentified shapes.
        unk1: Versioned<ShapeArray2>,
        /// The identifier of the generator.
        tag: Versioned<Tag>,
    },
    /// Adds appearance and unidentified identifiers.
    V2 {
        /// The common data of the object.
        base: Versioned<Base>,
        /// The shapes where enemies appear.
        appear_shapes: Versioned<ShapeArray2>,
        /// The shapes that trigger the generator.
        trigger_shapes: Versioned<ShapeArray2>,
        /// Unidentified shapes.
        unk1: Versioned<ShapeArray2>,
        /// The identifier of the generator.
        tag: Versioned<Tag>,
        /// The identifiers of the appearance points.
        appear_tags: Versioned<Array<Tag>>,
        /// Unidentified identifiers.
        unk2: Versioned<Array<Tag>>,
    },
    /// Adds trigger identifiers.
    V3 {
        /// The common data of the object.
        base: Versioned<Base>,
        /// The shapes where enemies appear.
        appear_shapes: Versioned<ShapeArray2>,
        /// The shapes that trigger the generator.
        trigger_shapes: Versioned<ShapeArray2>,
        /// Unidentified shapes.
        unk1: Versioned<ShapeArray2>,
        /// The identifier of the generator.
        tag: Versioned<Tag>,
        /// The identifiers of the appearance points.
        appear_tags: Versioned<Array<Tag>>,
        /// Unidentified identifiers.
        unk2: Versioned<Array<Tag>>,
        /// The identifiers of the triggers.
        trigger_tags: Versioned<Array<Tag>>,
    },
}

impl Version for EnemyGenerator {
    open spec fn spec_version(&self) -> u8 {
        match self {
            EnemyGenerator::V1 { .. } => 1,
            EnemyGenerator::V2 { .. } => 2,
            EnemyGenerator::V3 { .. } => 3,
        }
    }

    open spec fn spec_supported(version: u8) -> bool {
        version == 1 || version == 2 || version == 3
    }

    open spec fn spec_kind() -> RecordKind {
        RecordKind::EnemyGenerator
    }

    closed spec fn wf(&self) -> bool {
        match self {
            EnemyGenerator::V1 { base, appear_shapes, trigger_shapes, unk1, tag } => (*base, (*appear_shapes, (*trigger_shapes, (*unk1, *tag)))).wf(),
            EnemyGenerator::V2 { base, appear_shapes, trigger_shapes, unk1, tag, appear_tags, unk2 } => (*base, (*appear_shapes, (*trigger_shapes, (*unk1, (*tag, (*appear_tags, *unk2)))))).wf(),
            EnemyGenerator::V3 { base, appear_shapes, trigger_shapes, unk1, tag, appear_tags, unk2, trigger_tags } => (*base, (*appear_shapes, (*trigger_shapes, (*unk1, (*tag, (*appear_tags, (*unk2, *trigger_tags))))))).wf(),
        }
    }

    closed spec fn spec_bytes(&self, e: Endian) -> Seq<u8> {
        match self {
            EnemyGenerator::V1 { base, appear_shapes, trigger_shapes, unk1, tag } => (*base, (*appear_shapes, (*trigger_shapes, (*unk1, *tag)))).spec_bytes(e),
            EnemyGenerator::V2 { base, appear_shapes, trigger_shapes, unk1, tag, appear_tags, unk2 } => (*base, (*appear_shapes, (*trigger_shapes, (*unk1, (*tag, (*appear_tags, *unk2)))))).spec_bytes(e),
            EnemyGenerator::V3 { base, appear_shapes, trigger_shapes, unk1, tag, appear_tags, unk2, trigger_tags } => (*base, (*appear_shapes, (*trigger_shapes, (*unk1, (*tag, (*appear_tags, (*unk2, *trigger_tags))))))).spec_bytes(e),
        }
    }

    closed spec fn spec_accepts(&self, e: Endian, s: Seq<u8>) -> bool {
        match self {
            EnemyGenerator::V1 { base, appear_shapes, trigger_shapes, unk1, tag } => (*base, (*appear_shapes, (*trigger_shapes, (*unk1, *tag)))).spec_accepts(e, s),
            EnemyGenerator::V2 { base, appear_shapes, trigger_shapes, unk1, tag, appear_tags, unk2 } => (*base, (*appear_shapes, (*trigger_shapes, (*unk1, (*tag, (*appear_tags, *unk2)))))).spec_accepts(e, s),
            EnemyGenerator::V3 { base, appear_shapes, trigger_shapes, unk1, tag, appear_tags, unk2, trigger_tags } => (*base, (*appear_shapes, (*trigger_shapes, (*unk1, (*tag, (*appear_tags, (*unk2, *trigger_tags))))))).spec_accepts(e, s),
        }
    }

    closed spec fn same(&self, other: &Self) -> bool {
        match (self, other) {
            (EnemyGenerator::V1 { base, appear_shapes, trigger_shapes, unk1, tag }, EnemyGenerator::V1 { base: o_base, appear_shapes: o_appear_shapes, trigger_shapes: o_trigger_shapes, unk1: o_unk1, tag: o_tag }) => (*base, (*appear_shapes, (*trigger_shapes, (*unk1, *tag)))).same(&(*o_base, (*o_appear_shapes, (*o_trigger_shapes, (*o_unk1, *o_tag))))),
            (EnemyGenerator::V2 { base, appear_shapes, trigger_shapes, unk1, tag, appear_tags, unk2 }, EnemyGenerator::V2 { base: o_base, appear_shapes: o_appear_shapes, trigger_shapes: o_trigger_shapes, unk1: o_unk1, tag: o_tag, appear_tags: o_appear_tags, unk2: o_unk2 }) => (*base, (*appear_shapes, (*trigger_shapes, (*unk1, (*tag, (*appear_tags, *unk2)))))).same(&(*o_base, (*o_appear_shapes, (*o_trigger_shapes, (*o_unk1, (*o_tag, (*o_appear_tags, *o_unk2))))))),
            (EnemyGenerator::V3 { base, appear_shapes, trigger_shapes, unk1, tag, appear_tags, unk2, trigger_tags }, EnemyGenerator::V3 { base: o_base, appear_shapes: o_appear_shapes, trigger_shapes: o_trigger_shapes, unk1: o_unk1, tag: o_tag, appear_tags: o_appear_tags, unk2: o_unk2, trigger_tags: o_trigger_tags }) => (*base, (*appear_shapes, (*trigger_shapes, (*unk1, (*tag, (*appear_tags, (*unk2, *trigger_tags))))))).same(&(*o_base, (*o_appear_shapes, (*o_trigger_shapes, (*o_unk1, (*o_tag, (*o_appear_tags, (*o_unk2, *o_trigger_tags)))))))),
            _ => false,
        }
    }

    proof fn lemma_canonical(&self, e: Endian) {
        match self {
            EnemyGenerator::V1 { base, appear_shapes, trigger_shapes, unk1, tag } => (*base, (*appear_shapes, (*trigger_shapes, (*unk1, *tag)))).lemma_canonical(e),
            EnemyGenerator::V2 { base, appear_shapes, trigger_shapes, unk1, tag, appear_tags, unk2 } => (*base, (*appear_shapes, (*trigger_shapes, (*unk1, (*tag, (*appear_tags, *unk2)))))).lemma_canonical(e),
            EnemyGenerator::V3 { base, appear_shapes, trigger_shapes, unk1, tag, appear_tags, unk2, trigger_tags } => (*base, (*appear_shapes, (*trigger_shapes, (*unk1, (*tag, (*appear_tags, (*unk2, *trigger_tags))))))).lemma_canonical(e),
        }
    }

    fn version(&self) -> (r: u8) {
        match self {
            EnemyGenerator::V1 { .. } => 1,
            EnemyGenerator::V2 { .. } => 2,
            EnemyGenerator::V3 { .. } => 3,
        }
    }

    fn decode_payload(version: u8, e: Endian, buf: &[u8], pos: usize) -> (r: Result<(Self, usize), DecodeError>) {
        match version {
            1 => Self::decode_v1(e, buf, pos),
            2 => Self::decode_v2(e, buf, pos),
            3 => Self::decode_v3(e, buf, pos),
            _ => Err(DecodeError::UnsupportedVersion { record: RecordKind::EnemyGenerator, version, pos }),
        }
    }

    fn encode_payload(&self, e: Endian, out: &mut Vec<u8>) {
        match self {
            EnemyGenerator::V1 { .. } => self.encode_v1(e, out),
            EnemyGenerator::V2 { .. } => self.encode_v2(e, out),
            EnemyGenerator::V3 { .. } => self.encode_v3(e, out),
        }
    }
}

impl EnemyGenerator {
    /// Writes the payload of the `V1` variant.
    fn encode_v1(&self, e: Endian, out: &mut Vec<u8>)
        requires
            self is V1,
            self.wf(),
        ensures
            final(out)@ == old(out)@ + self.spec_bytes(e),
    {
        match self {
            EnemyGenerator::V1 { base, appear_shapes, trigger_shapes, unk1, tag } => {
                base.encode(e, out);
                appear_shapes.encode(e, out);
                proof {
                    assert(out@ =~= old(out)@ + (base.spec_bytes(e) + appear_shapes.spec_bytes(e)));
                }
                trigger_shapes.encode(e, out);
                proof {
                    assert(out@ =~= old(out)@ + (base.spec_bytes(e) + appear_shapes.spec_bytes(e) + trigger_shapes.spec_bytes(e)));
                }
                unk1.encode(e, out);
                proof {
                    assert(out@ =~= old(out)@ + (base.spec_bytes(e) + appear_shapes.spec_bytes(e) + trigger_shapes.spec_bytes(e) + unk1.spec_bytes(e)));
                }
                tag.encode(e, out);
                proof {
                    assert(final(out)@ =~= old(out)@ + (*base, (*appear_shapes, (*trigger_shapes, (*unk1, *tag)))).spec_bytes(e));
                }
            },
            _ => {},
        }
    }

    /// Writes the payload of the `V2` variant.
    #[verifier::spinoff_prover]
    #[verifier::rlimit(100)]
    fn encode_v2(&self, e: Endian, out: &mut Vec<u8>)
        requires
            self is V2,
            self.wf(),
        ensures
            final(out)@ == old(out)@ + self.spec_bytes(e),
    {
        match self {
            EnemyGenerator::V2 { base, appear_shapes, trigger_shapes, unk1, tag, appear_tags, unk2 } => {
                base.encode(e, out);
                appear_shapes.encode(e, out);
                proof {
                    assert(out@ =~= old(out)@ + (base.spec_bytes(e) + appear_shapes.spec_bytes(e)));
                }
                trigger_shapes.encode(e, out);
                proof {
                    assert(out@ =~= old(out)@ + (base.spec_bytes(e) + appear_shapes.spec_bytes(e) + trigger_shapes.spec_bytes(e)));
                }
                unk1.encode(e, out);
                proof {
                    assert(out@ =~= old(out)@ + (base.spec_bytes(e) + appear_shapes.spec_bytes(e) + trigger_shapes.spec_bytes(e) + unk1.spec_bytes(e)));
                }
                tag.encode(e, out);
                proof {
                    assert(out@ =~= old(out)@ + (base.spec_bytes(e) + appear_shapes.spec_bytes(e) + trigger_shapes.spec_bytes(e) + unk1.spec_bytes(e) + tag.spec_bytes(e)));
                }
                appear_tags.encode(e, out);
                proof {
                    assert(out@ =~= old(out)@ + (base.spec_bytes(e) + appear_shapes.spec_bytes(e) + trigger_shapes.spec_bytes(e) + unk1.spec_bytes(e) + tag.spec_bytes(e) + appear_tags.spec_bytes(e)));
                }
                unk2.encode(e, out);
                proof {
                    assert(final(out)@ =~= old(out)@ + (*base, (*appear_shapes, (*trigger_shapes, (*unk1, (*tag, (*appear_tags, *unk2)))))).spec_bytes(e));
                }
            },
            _ => {},
        }
    }

    /// Writes the payload of the `V3` variant.
    #[verifier::spinoff_prover]
    #[verifier::rlimit(100)]
    fn encode_v3(&self, e: Endian, out: &mut Vec<u8>)
        requires
            self is V3,
            self.wf(),
        ensures
            final(out)@ == old(out)@ + self.spec_bytes(e),
    {
        match self {
            EnemyGenerator::V3 { base, appear_shapes, trigger_shapes, unk1, tag, appear_tags, unk2, trigger_tags } => {
                base.encode(e, out);
                appear_shapes.encode(e, out);
                proof {
                    assert(out@ =~= old(out)@ + (base.spec_bytes(e) + appear_shapes.spec_bytes(e)));
                }
                trigger_shapes.encode(e, out);
                proof {
                    assert(out@ =~= old(out)@ + (base.spec_bytes(e) + appear_shapes.spec_bytes(e) + trigger_shapes.spec_bytes(e)));
                }
                unk1.encode(e, out);
                proof {
                    assert(out@ =~= old(out)@ + (base.spec_bytes(e) + appear_shapes.spec_bytes(e) + trigger_shapes.spec_bytes(e) + unk1.spec_bytes(e)));
                }
                tag.encode(e, out);
                proof {
                    assert(out@ =~= old(out)@ + (base.spec_bytes(e) + appear_shapes.spec_bytes(e) + trigger_shapes.spec_bytes(e) + unk1.spec_bytes(e) + tag.spec_bytes(e)));
                }
                appear_tags.encode(e, out);
                proof {
                    assert(out@ =~= old(out)@ + (base.spec_bytes(e) + appear_shapes.spec_bytes(e) + trigger_shapes.spec_bytes(e) + unk1.spec_bytes(e) + tag.spec_bytes(e) + appear_tags.spec_bytes(e)));
                }
                unk2.encode(e, out);
                proof {
                    assert(out@ =~= old(out)@ + (base.spec_bytes(e) + appear_shapes.spec_bytes(e) + trigger_shapes.spec_bytes(e) + unk1.spec_bytes(e) + tag.spec_bytes(e) + appear_tags.spec_bytes(e) + unk2.spec_bytes(e)));
                }
                trigger_tags.encode(e, out);
                proof {
                    assert(final(out)@ =~= old(out)@ + (*base, (*appear_shapes, (*trigger_shapes, (*unk1, (*tag, (*appear_tags, (*unk2, *trigger_tags))))))).spec_bytes(e));
                }
            },
            _ => {},
        }
    }

    /// Reads the payload of layout 1.
    fn decode_v1(e: Endian, buf: &[u8], pos: usize) -> (r: Result<(Self, usize), DecodeError>)
        requires
            pos <= buf@.len(),
        ensures
            match r {
                Ok((v, end)) => {
                    &&& v.spec_version() == 1
                    &&& end == pos + v.spec_bytes(e).len()
                    &&& end <= buf@.len()
                    &&& v.wf()
                    &&& v.spec_accepts(e, buf@.subrange(pos as int, end as int))
                },
                Err(_) => true,
            },
            forall|x: Self|
                x.spec_version() == 1 && x.wf() && pos + x.spec_bytes(e).len() <= buf@.len()
                    && #[trigger] x.spec_accepts(e, buf@.subrange(pos as int, pos + x.spec_bytes(e).len()))
                    ==> match r {
                    Ok((v, end)) => v.same(&x) && end == pos + x.spec_bytes(e).len(),
                    Err(_) => false,
                },
    {
        match <(Versioned<Base>, (Versioned<ShapeArray2>, (Versioned<ShapeArray2>, (Versioned<ShapeArray2>, Versioned<Tag>))))>::decode(e, buf, pos) {
            Ok(((base, (appear_shapes, (trigger_shapes, (unk1, tag)))), end)) => Ok((EnemyGenerator::V1 { base, appear_shapes, trigger_shapes, unk1, tag }, end)),
            Err(err) => Err(err),
        }
    }

    /// Reads the payload of layout 2.
    fn decode_v2(e: Endian, buf: &[u8], pos: usize) -> (r: Result<(Self, usize), DecodeError>)
        requires
            pos <= buf@.len(),
        ensures
            match r {
                Ok((v, end)) => {
                    &&& v.spec_version() == 2
                    &&& end == pos + v.spec_bytes(e).len()
                    &&& end <= buf@.len()
                    &&& v.wf()
                    &&& v.spec_accepts(e, buf@.subrange(pos as int, end as int))
                },
                Err(_) => true,
            },
            forall|x: Self|
                x.spec_version() == 2 && x.wf() && pos + x.spec_bytes(e).len() <= buf@.len()
                    && #[trigger] x.spec_accepts(e, buf@.subrange(pos as int, pos + x.spec_bytes(e).len()))
                    ==> match r {
                    Ok((v, end)) => v.same(&x) && end == pos + x.spec_bytes(e).len(),
                    Err(_) => false,
                },
    {
        match <(Versioned<Base>, (Versioned<ShapeArray2>, (Versioned<ShapeArray2>, (Versioned<ShapeArray2>, (Versioned<Tag>, (Versioned<Array<Tag>>, Versioned<Array<Tag>>))))))>::decode(e, buf, pos) {
            Ok(((base, (appear_shapes, (trigger_shapes, (unk1, (tag, (appear_tags, unk2)))))), end)) => Ok((EnemyGenerator::V2 { base, appear_shapes, trigger_shapes, unk1, tag, appear_tags, unk2 }, end)),
            Err(err) => Err(err),
        }
    }

    /// Reads the payload of layout 3.
    fn decode_v3(e: Endian, buf: &[u8], pos: usize) -> (r: Result<(Self, usize), DecodeError>)
        requires
            pos <= buf@.len(),
        ensures
            match r {
                Ok((v, end)) => {
                    &&& v.spec_version() == 3
                    &&& end == pos + v.spec_bytes(e).len()
                    &&& end <= buf@.len()
                    &&& v.wf()
                    &&& v.spec_accepts(e, buf@.subrange(pos as int, end as int))
                },
                Err(_) => true,
            },
            forall|x: Self|
                x.spec_version() == 3 && x.wf() && pos + x.spec_bytes(e).len() <= buf@.len()
                    && #[trigger] x.spec_accepts(e, buf@.subrange(pos as int, pos + x.spec_bytes(e).len()))
                    ==> match r {
                    Ok((v, end)) => v.same(&x) && end == pos + x.spec_bytes(e).len(),
                    Err(_) => false,
                },
    {
        match <(Versioned<Base>, (Versioned<ShapeArray2>, (Versioned<ShapeArray2>, (Versioned<ShapeArray2>, (Versioned<Tag>, (Versioned<Array<Tag>>, (Versioned<Array<Tag>>, Versioned<Array<Tag>>)))))))>::decode(e, buf, pos) {
            Ok(((base, (appear_shapes, (trigger_shapes, (unk1, (tag, (appear_tags, (unk2, trigger_tags))))))), end)) => Ok((EnemyGenerator::V3 { base, appear_shapes, trigger_shapes, unk1, tag, appear_tags, unk2, trigger_tags }, end)),
            Err(err) => Err(err),
        }
    }

}

} // verus!
