//! Whole files: a legacy 32-bit word, then the versioned top-level record.
use vstd::prelude::*;
use crate::lvd::{signature_bytes, Lvd};
use crate::version::{Version, Versioned};
use crate::wire::{bytes32, write_u32, DecodeError, Endian, RecordKind, Wire};

verus! {

/// A whole file: a legacy 32-bit word, then the versioned top-level record.
///
/// The legacy word carries no meaning: any value is accepted on read, and 1 is written.
#[derive(Debug)]
pub struct LvdFile {
    /// The top-level record with its version selector.
    pub data: Versioned<Lvd>,
}

impl Wire for LvdFile {
    open spec fn wf(&self) -> bool {
        self.data.wf()
    }

    open spec fn spec_bytes(&self, e: Endian) -> Seq<u8> {
        bytes32(e, 1) + self.data.spec_bytes(e)
    }

    open spec fn spec_accepts(&self, e: Endian, s: Seq<u8>) -> bool {
        &&& s.len() >= 4
        &&& self.data.spec_accepts(e, s.subrange(4, s.len() as int))
    }

    open spec fn same(&self, other: &Self) -> bool {
        self.data.same(&other.data)
    }

    proof fn lemma_canonical(&self, e: Endian) {
        self.data.lemma_canonical(e);
        let s = self.spec_bytes(e);
        assert(s.subrange(4, s.len() as int) =~= self.data.spec_bytes(e));
    }

    fn decode(e: Endian, buf: &[u8], pos: usize) -> (r: Result<(Self, usize), DecodeError>) {
        Self::read_at(e, buf, pos)
    }

    fn encode(&self, e: Endian, out: &mut Vec<u8>) {
        write_u32(e, 1, out);
        self.data.encode(e, out);
        proof {
            assert(final(out)@ =~= old(out)@ + self.spec_bytes(e));
        }
    }
}

impl LvdFile {
    /// Reads a file that starts at `pos`: the legacy word, the version selector of the
    /// top-level record, the signature, and the object arrays of that version.
    #[verifier::spinoff_prover]
    #[verifier::rlimit(100)]
    pub fn read_at(e: Endian, buf: &[u8], pos: usize) -> (r: Result<(Self, usize), DecodeError>)
        requires
            pos <= buf@.len(),
        ensures
            match r {
                Ok((v, end)) => {
                    &&& end == pos + v.spec_bytes(e).len()
                    &&& end <= buf@.len()
                    &&& v.wf()
                    &&& v.spec_accepts(e, buf@.subrange(pos as int, end as int))
                },
                Err(_) => true,
            },
            forall|x: Self|
                x.wf() && pos + x.spec_bytes(e).len() <= buf@.len() && #[trigger] x.spec_accepts(
                    e,
                    buf@.subrange(pos as int, pos + x.spec_bytes(e).len()),
                ) ==> match r {
                    Ok((v, end)) => v.same(&x) && end == pos + x.spec_bytes(e).len(),
                    Err(_) => false,
                },
            pos + 5 > buf@.len() ==> r is Err,
            pos + 5 <= buf@.len() && !Lvd::spec_supported(buf@[pos + 4]) ==> r == Err::<(Self, usize), DecodeError>(
                DecodeError::UnsupportedVersion { record: RecordKind::Lvd, version: buf@[pos + 4], pos: (pos + 5) as usize },
            ),
            pos + 10 <= buf@.len() && Lvd::spec_supported(buf@[pos + 4]) && buf@.subrange(pos + 5, pos + 10)
                != signature_bytes() ==> r == Err::<(Self, usize), DecodeError>(DecodeError::BadMagic { pos: (pos + 5) as usize }),
    {
        if buf.len() - pos < 5 {
            proof {
                assert forall|x: Self|
                    x.wf() && pos + x.spec_bytes(e).len() <= buf@.len() && #[trigger] x.spec_accepts(
                        e,
                        buf@.subrange(pos as int, pos + x.spec_bytes(e).len()),
                    ) implies false by {
                    let w = buf@.subrange(pos as int, pos + x.spec_bytes(e).len());
                    assert(w.subrange(4, w.len() as int).len() >= 1);
                }
            }
            return Err(DecodeError::Truncated { pos });
        }
        let p = pos + 4;
        let version = buf[p];
        let r = Lvd::read_payload(version, e, buf, p + 1);
        match r {
            Ok((inner, end)) => {
                let v = LvdFile { data: Versioned { inner } };
                proof {
                    let n = inner.spec_bytes(e).len() as int;
                    let w = buf@.subrange(pos as int, end as int);
                    assert(w.subrange(4, w.len() as int) =~= buf@.subrange(p as int, end as int));
                    assert(buf@.subrange(p as int, end as int).subrange(1, 1 + n) =~= buf@.subrange(p + 1, end as int));
                    assert forall|x: Self|
                        x.wf() && pos + x.spec_bytes(e).len() <= buf@.len() && #[trigger] x.spec_accepts(
                            e,
                            buf@.subrange(pos as int, pos + x.spec_bytes(e).len()),
                        ) implies v.same(&x) && end == pos + x.spec_bytes(e).len() by {
                        let m = x.data.inner.spec_bytes(e).len() as int;
                        let wx = buf@.subrange(pos as int, pos + 5 + m);
                        assert(wx.subrange(4, wx.len() as int) =~= buf@.subrange(p as int, p + 1 + m));
                        assert(buf@.subrange(p as int, p + 1 + m).subrange(1, 1 + m) =~= buf@.subrange(p + 1, p + 1 + m));
                        assert(buf@.subrange(p as int, p + 1 + m)[0] == buf@[p as int]);
                        assert(x.data.inner.spec_accepts(e, buf@.subrange(p + 1, p + 1 + x.data.inner.spec_bytes(e).len())));
                    }
                }
                Ok((v, end))
            },
            Err(err) => {
                proof {
                    assert forall|x: Self|
                        x.wf() && pos + x.spec_bytes(e).len() <= buf@.len() && #[trigger] x.spec_accepts(
                            e,
                            buf@.subrange(pos as int, pos + x.spec_bytes(e).len()),
                        ) implies false by {
                        let m = x.data.inner.spec_bytes(e).len() as int;
                        let wx = buf@.subrange(pos as int, pos + 5 + m);
                        assert(wx.subrange(4, wx.len() as int) =~= buf@.subrange(p as int, p + 1 + m));
                        assert(buf@.subrange(p as int, p + 1 + m).subrange(1, 1 + m) =~= buf@.subrange(p + 1, p + 1 + m));
                        assert(buf@.subrange(p as int, p + 1 + m)[0] == buf@[p as int]);
                        assert(x.data.inner.spec_accepts(e, buf@.subrange(p + 1, p + 1 + x.data.inner.spec_bytes(e).len())));
                    }
                    if pos + 10 <= buf@.len() {
                        assert(buf@.subrange(pos + 5, pos + 10) == buf@.subrange(p + 1, p + 1 + 5));
                    }
                }
                Err(err)
            },
        }
    }
}

/// Reads a whole file from the start of `buf`; bytes after the file are ignored.
///
/// Succeeds exactly when a well-formed file is encoded at the start of `buf`, and then returns
/// that file. A top-level version outside 1 to 13 fails right after its selector, and a wrong
/// signature fails at offset 5.
pub fn decode_file(e: Endian, buf: &[u8]) -> (r: Result<LvdFile, DecodeError>)
    ensures
        r matches Ok(f) ==> {
            &&& f.wf()
            &&& f.spec_bytes(e).len() <= buf@.len()
            &&& f.spec_accepts(e, buf@.subrange(0, f.spec_bytes(e).len() as int))
        },
        forall|x: LvdFile|
            x.wf() && x.spec_bytes(e).len() <= buf@.len() && #[trigger] x.spec_accepts(
                e,
                buf@.subrange(0, x.spec_bytes(e).len() as int),
            ) ==> (r matches Ok(f) && f.same(&x)),
        buf@.len() < 5 ==> r is Err,
        buf@.len() >= 5 && !Lvd::spec_supported(buf@[4]) ==> r == Err::<LvdFile, DecodeError>(
            DecodeError::UnsupportedVersion { record: RecordKind::Lvd, version: buf@[4], pos: 5 },
        ),
        buf@.len() >= 10 && Lvd::spec_supported(buf@[4]) && buf@.subrange(5, 10) != signature_bytes() ==> r == Err::<
            LvdFile,
            DecodeError,
        >(DecodeError::BadMagic { pos: 5 }),
{
    let r = LvdFile::read_at(e, buf, 0);
    proof {
        assert forall|x: LvdFile|
            x.wf() && x.spec_bytes(e).len() <= buf@.len() && #[trigger] x.spec_accepts(
                e,
                buf@.subrange(0, x.spec_bytes(e).len() as int),
            ) implies (r matches Ok((f, _)) && f.same(&x)) by {
            assert(buf@.subrange(0usize as int, 0usize + x.spec_bytes(e).len()) == buf@.subrange(0, x.spec_bytes(e).len() as int));
        }
    }
    match r {
        Ok((f, _)) => Ok(f),
        Err(err) => Err(err),
    }
}

/// The bytes of a whole file.
pub fn encode_file(f: &LvdFile, e: Endian) -> (r: Vec<u8>)
    requires
        f.wf(),
    ensures
        r@ == f.spec_bytes(e),
{
    let mut out: Vec<u8> = Vec::new();
    f.encode(e, &mut out);
    proof {
        assert(out@ =~= f.spec_bytes(e));
    }
    out
}

} // verus!
