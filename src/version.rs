//! Tagged records and the wrapper that writes a record's version selector before it.
use vstd::prelude::*;
use crate::wire::{DecodeError, Endian, RecordKind, Wire};

verus! {

/// A record whose field layout is chosen by a one-byte version selector.
///
/// The selector is not part of the payload: the enclosing [`Versioned`] writes it first and
/// hands it to `decode_payload`, which alone decides whether it knows that version.
pub trait Version: Sized {
    /// The version this value reports; it depends only on which variant is held.
    spec fn spec_version(&self) -> u8;

    /// The versions that select a variant.
    spec fn spec_supported(version: u8) -> bool;

    /// The record type, as named in errors.
    spec fn spec_kind() -> RecordKind;

    /// The value can be encoded.
    spec fn wf(&self) -> bool;

    /// The payload bytes `encode_payload` writes.
    spec fn spec_bytes(&self, e: Endian) -> Seq<u8>;

    /// `s` is a payload encoding of the value; bytes that decoding skips may hold anything.
    spec fn spec_accepts(&self, e: Endian, s: Seq<u8>) -> bool;

    /// Both values hold the same content.
    spec fn same(&self, other: &Self) -> bool;

    /// A well-formed value reports a supported version, and its canonical payload is accepted.
    proof fn lemma_canonical(&self, e: Endian)
        requires
            self.wf(),
        ensures
            self.spec_accepts(e, self.spec_bytes(e)),
            Self::spec_supported(self.spec_version()),
    ;

    /// The version selector written before the payload.
    fn version(&self) -> (r: u8)
        ensures
            r == self.spec_version(),
    ;

    /// Reads the payload of the variant that `version` selects, at `pos`.
    fn decode_payload(version: u8, e: Endian, buf: &[u8], pos: usize) -> (r: Result<(Self, usize), DecodeError>)
        requires
            pos <= buf@.len(),
        ensures
            match r {
                Ok((v, end)) => {
                    &&& v.spec_version() == version
                    &&& end == pos + v.spec_bytes(e).len()
                    &&& end <= buf@.len()
                    &&& v.wf()
                    &&& v.spec_accepts(e, buf@.subrange(pos as int, end as int))
                },
                Err(_) => true,
            },
            forall|x: Self|
                x.spec_version() == version && x.wf() && pos + x.spec_bytes(e).len() <= buf@.len()
                    && #[trigger] x.spec_accepts(e, buf@.subrange(pos as int, pos + x.spec_bytes(e).len()))
                    ==> match r {
                    Ok((v, end)) => v.same(&x) && end == pos + x.spec_bytes(e).len(),
                    Err(_) => false,
                },
            !Self::spec_supported(version) ==> r == Err::<(Self, usize), DecodeError>(
                DecodeError::UnsupportedVersion { record: Self::spec_kind(), version, pos },
            ),
    ;

    /// Appends the canonical payload.
    fn encode_payload(&self, e: Endian, out: &mut Vec<u8>)
        requires
            self.wf(),
        ensures
            final(out)@ == old(out)@ + self.spec_bytes(e),
    ;
}

/// A value preceded on the wire by its version selector.
#[derive(Debug)]
pub struct Versioned<T> {
    /// The wrapped value.
    pub inner: T,
}

impl<T: Version> Versioned<T> {
    /// Wraps a value.
    pub fn new(inner: T) -> (r: Self)
        ensures
            r.inner == inner,
    {
        Versioned { inner }
    }

    /// The version selector of the wrapped value.
    pub fn version(&self) -> (r: u8)
        ensures
            r == self.inner.spec_version(),
    {
        self.inner.version()
    }

    /// Reads the version selector at `pos`, then the payload it selects.
    ///
    /// A selector that the record does not know fails right after the selector byte.
    pub fn read(e: Endian, buf: &[u8], pos: usize) -> (r: Result<(Self, usize), DecodeError>)
        requires
            pos <= buf@.len(),
        ensures
            match r {
                Ok((v, end)) => {
                    &&& end == pos + v.spec_bytes(e).len()
                    &&& end <= buf@.len()
                    &&& v.wf()
                    &&& v.spec_accepts(e, buf@.subrange(pos as int, end as int))
                },
                Err(_) => true,
            },
            forall|x: Self|
                x.wf() && pos + x.spec_bytes(e).len() <= buf@.len() && #[trigger] x.spec_accepts(
                    e,
                    buf@.subrange(pos as int, pos + x.spec_bytes(e).len()),
                ) ==> match r {
                    Ok((v, end)) => v.same(&x) && end == pos + x.spec_bytes(e).len(),
                    Err(_) => false,
                },
            pos == buf@.len() ==> r == Err::<(Self, usize), DecodeError>(DecodeError::Truncated { pos }),
            pos < buf@.len() && !T::spec_supported(buf@[pos as int]) ==> r == Err::<(Self, usize), DecodeError>(
                DecodeError::UnsupportedVersion { record: T::spec_kind(), version: buf@[pos as int], pos: (pos + 1) as usize },
            ),
    {
        if pos >= buf.len() {
            return Err(DecodeError::Truncated { pos });
        }
        let version = buf[pos];
        let r = T::decode_payload(version, e, buf, pos + 1);
        match r {
            Ok((inner, end)) => {
                let v = Versioned { inner };
                proof {
                    let n = inner.spec_bytes(e).len() as int;
                    assert(buf@.subrange(pos as int, end as int).subrange(1, 1 + n) =~= buf@.subrange(pos + 1, end as int));
                    assert forall|x: Self|
                        x.wf() && pos + x.spec_bytes(e).len() <= buf@.len() && #[trigger] x.spec_accepts(
                            e,
                            buf@.subrange(pos as int, pos + x.spec_bytes(e).len()),
                        ) implies v.same(&x) && end == pos + x.spec_bytes(e).len() by {
                        lemma_versioned_window(x, e, buf@, pos as int);
                    }
                }
                Ok((v, end))
            },
            Err(err) => {
                proof {
                    assert forall|x: Self|
                        x.wf() && pos + x.spec_bytes(e).len() <= buf@.len() && #[trigger] x.spec_accepts(
                            e,
                            buf@.subrange(pos as int, pos + x.spec_bytes(e).len()),
                        ) implies false by {
                        lemma_versioned_window(x, e, buf@, pos as int);
                    }
                }
                Err(err)
            },
        }
    }
}

/// A versioned value accepted in a window starts with its selector, and its payload is
/// accepted in the rest of the window.
proof fn lemma_versioned_window<T: Version>(x: Versioned<T>, e: Endian, s: Seq<u8>, pos: int)
    requires
        0 <= pos,
        pos + 1 + x.inner.spec_bytes(e).len() <= s.len(),
        x.spec_accepts(e, s.subrange(pos, pos + 1 + x.inner.spec_bytes(e).len())),
    ensures
        s[pos] == x.inner.spec_version(),
        x.inner.spec_accepts(e, s.subrange(pos + 1, pos + 1 + x.inner.spec_bytes(e).len())),
{
    let m = x.inner.spec_bytes(e).len() as int;
    assert(s.subrange(pos, pos + 1 + m).subrange(1, 1 + m) =~= s.subrange(pos + 1, pos + 1 + m));
    assert(s.subrange(pos, pos + 1 + m)[0] == s[pos]);
}

impl<T: Version> Wire for Versioned<T> {
    open spec fn wf(&self) -> bool {
        self.inner.wf()
    }

    open spec fn spec_bytes(&self, e: Endian) -> Seq<u8> {
        seq![self.inner.spec_version()] + self.inner.spec_bytes(e)
    }

    open spec fn spec_accepts(&self, e: Endian, s: Seq<u8>) -> bool {
        &&& s.len() >= 1
        &&& s[0] == self.inner.spec_version()
        &&& self.inner.spec_accepts(e, s.subrange(1, s.len() as int))
    }

    open spec fn same(&self, other: &Self) -> bool {
        self.inner.same(&other.inner)
    }

    proof fn lemma_canonical(&self, e: Endian) {
        self.inner.lemma_canonical(e);
        let s = self.spec_bytes(e);
        assert(s.subrange(1, s.len() as int) =~= self.inner.spec_bytes(e));
    }

    fn decode(e: Endian, buf: &[u8], pos: usize) -> (r: Result<(Self, usize), DecodeError>) {
        Self::read(e, buf, pos)
    }

    fn encode(&self, e: Endian, out: &mut Vec<u8>) {
        out.push(self.inner.version());
        self.inner.encode_payload(e, out);
        proof {
            assert(final(out)@ =~= old(out)@ + self.spec_bytes(e));
        }
    }
}

} // verus!
