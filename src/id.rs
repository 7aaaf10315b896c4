//! A numeric identifier for matching and filtering objects.
use vstd::prelude::*;
use crate::version::Version;
use crate::wire::{DecodeError, Endian, RecordKind, Wire};

verus! {

/// A numeric identifier for matching and filtering objects.
#[derive(Clone, Copy, Debug, PartialEq, Eq, Structural)]
pub struct Id(pub u32);

impl Version for Id {
    open spec fn spec_version(&self) -> u8 {
        1
    }

    open spec fn spec_supported(version: u8) -> bool {
        version == 1
    }

    open spec fn spec_kind() -> RecordKind {
        RecordKind::Id
    }

    open spec fn wf(&self) -> bool {
        true
    }

    open spec fn spec_bytes(&self, e: Endian) -> Seq<u8> {
        self.0.spec_bytes(e)
    }

    open spec fn spec_accepts(&self, e: Endian, s: Seq<u8>) -> bool {
        self.0.spec_accepts(e, s)
    }

    open spec fn same(&self, other: &Self) -> bool {
        self.0 == other.0
    }

    proof fn lemma_canonical(&self, e: Endian) {
    }

    fn version(&self) -> (r: u8) {
        1
    }

    fn decode_payload(version: u8, e: Endian, buf: &[u8], pos: usize) -> (r: Result<(Self, usize), DecodeError>) {
        if version != 1 {
            return Err(DecodeError::UnsupportedVersion { record: RecordKind::Id, version, pos });
        }
        match u32::decode(e, buf, pos) {
            Ok((v, end)) => Ok((Id(v), end)),
            Err(err) => Err(err),
        }
    }

    fn encode_payload(&self, e: Endian, out: &mut Vec<u8>) {
        self.0.encode(e, out);
    }
}

} // verus!
