//! Properties that hold across the codecs, stated over the encodings that `encode` writes and
//! that `decode` checks.
use vstd::prelude::*;
use crate::file::LvdFile;
use crate::array::{elems_bytes, lemma_elems_prefix, Array};
use crate::string::FixedString;
use crate::version::{Version, Versioned};
use crate::wire::{lemma_u32_at, u32_at, Endian, Wire};

verus! {

/// Round trip: the bytes that `encode` writes for a well-formed versioned value, followed by
/// anything, hold an encoding of that value at their start. By the contract of `decode`,
/// decoding them yields a value with the same content, just past the encoding.
pub proof fn lemma_round_trip<T: Version>(x: Versioned<T>, e: Endian, rest: Seq<u8>)
    requires
        x.wf(),
    ensures
        ({
            let s = x.spec_bytes(e) + rest;
            x.spec_accepts(e, s.subrange(0, x.spec_bytes(e).len() as int))
        }),
{
    x.lemma_canonical(e);
    let s = x.spec_bytes(e) + rest;
    assert(s.subrange(0, x.spec_bytes(e).len() as int) =~= x.spec_bytes(e));
}

/// The same for a value that is not preceded by a version selector.
pub proof fn lemma_wire_round_trip<T: Wire>(x: T, e: Endian, rest: Seq<u8>)
    requires
        x.wf(),
    ensures
        ({
            let s = x.spec_bytes(e) + rest;
            x.spec_accepts(e, s.subrange(0, x.spec_bytes(e).len() as int))
        }),
{
    x.lemma_canonical(e);
    let s = x.spec_bytes(e) + rest;
    assert(s.subrange(0, x.spec_bytes(e).len() as int) =~= x.spec_bytes(e));
}

/// Round trip for a whole file: the bytes `encode_file` returns for a well-formed file,
/// followed by anything, hold that file at their start, so `decode_file` gives it back.
pub proof fn lemma_file_round_trip(f: LvdFile, e: Endian, rest: Seq<u8>)
    requires
        f.wf(),
    ensures
        ({
            let s = f.spec_bytes(e) + rest;
            f.spec_accepts(e, s.subrange(0, f.spec_bytes(e).len() as int))
        }),
{
    lemma_wire_round_trip(f, e, rest);
}

/// A fixed-capacity string is read from a window of exactly `N` bytes whose first zero byte,
/// at offset `k`, ends the string: the string has length `k`, whatever follows the zero.
pub proof fn lemma_fixed_string_window<const N: usize>(x: FixedString<N>, e: Endian, s: Seq<u8>, k: int)
    requires
        x.wf(),
        x.spec_accepts(e, s),
        0 <= k < s.len(),
        s[k] == 0,
        forall|j: int| 0 <= j < k ==> s[j] != 0,
    ensures
        s.len() == N,
        x@.len() == k,
        x@ == s.subrange(0, k),
{
    let n = x@.len() as int;
    if n < k {
        assert(s[n] == 0);
    }
    if k < n {
        assert(s.subrange(0, n)[k] == x@[k]);
    }
}

/// An encoded array starts with its element count, and its elements follow back to back to
/// exactly the end of the encoding; a count of zero leaves no element bytes.
pub proof fn lemma_array_layout<T: Version>(x: Array<T>, e: Endian, s: Seq<u8>)
    requires
        x.wf(),
        x.spec_accepts(e, s),
    ensures
        u32_at(e, s, 0) as int == x.spec_elements().len(),
        s.len() == 4 + elems_bytes(x.spec_elements(), e).len(),
        x.spec_elements().len() == 0 ==> s.len() == 4,
{
    lemma_u32_at(e, s, 0, x.spec_elements().len() as u32);
    lemma_elems_prefix(x.spec_elements(), e, s.subrange(4, s.len() as int), 0);
}

} // verus!
