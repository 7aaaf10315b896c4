//! A run of fields encoded back to back, treated as one unit.
//!
//! Large records group their fields into runs so that each group is reasoned about on its own.
use vstd::prelude::*;
use crate::wire::{DecodeError, Endian, Wire};

verus! {

/// The fields in `0`, encoded exactly as they are, as one unit.
#[derive(Debug)]
pub struct Run<T>(pub T);

impl<T: Wire> Wire for Run<T> {
    closed spec fn wf(&self) -> bool {
        self.0.wf()
    }

    closed spec fn spec_bytes(&self, e: Endian) -> Seq<u8> {
        self.0.spec_bytes(e)
    }

    closed spec fn spec_accepts(&self, e: Endian, s: Seq<u8>) -> bool {
        self.0.spec_accepts(e, s)
    }

    closed spec fn same(&self, other: &Self) -> bool {
        self.0.same(&other.0)
    }

    proof fn lemma_canonical(&self, e: Endian) {
        self.0.lemma_canonical(e);
    }

    fn decode(e: Endian, buf: &[u8], pos: usize) -> (r: Result<(Self, usize), DecodeError>) {
        match T::decode(e, buf, pos) {
            Ok((t, end)) => Ok((Run(t), end)),
            Err(err) => Err(err),
        }
    }

    fn encode(&self, e: Endian, out: &mut Vec<u8>) {
        self.0.encode(e, out);
    }
}

/// A run is encoded, and well formed, exactly as its fields are.
pub proof fn lemma_run<T: Wire>(x: Run<T>, e: Endian)
    ensures
        x.spec_bytes(e) == x.0.spec_bytes(e),
        x.wf() == x.0.wf(),
{
}

} // verus!
