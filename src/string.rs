//! A nul-terminated string with a fixed capacity.
use vstd::prelude::*;
use vstd::string::StringSliceAdditionalSpecFns;
use vstd::utf8::{encode_utf8, valid_utf8};
use crate::version::Version;
use crate::wire::{zeros, DecodeError, Endian, RecordKind};

verus! {

#[verifier::external_type_specification]
#[verifier::external_body]
pub struct ExUtf8Error(core::str::Utf8Error);

/// Relies on `std::str::from_utf8`: it succeeds exactly on valid UTF-8, and the text it returns
/// is made of the given bytes.
#[verifier::external_body]
fn utf8_text<'a>(b: &'a [u8]) -> (r: Result<&'a str, core::str::Utf8Error>)
    ensures
        r is Ok <==> valid_utf8(b@),
        r matches Ok(s) ==> s.spec_bytes() == b@,
{
    core::str::from_utf8(b)
}

/// No byte of `s` is zero.
pub open spec fn nul_free(s: Seq<u8>) -> bool {
    forall|i: int| 0 <= i < s.len() ==> s[i] != 0
}

/// A nul-terminated string stored in a window of exactly `N` bytes.
///
/// The string holds at most `N - 1` bytes, none of them zero. On the wire it is followed by a
/// zero byte and padded with zeros to `N` bytes; bytes after the terminator are skipped on read.
#[derive(Debug)]
pub struct FixedString<const N: usize> {
    bytes: Vec<u8>,
}

impl<const N: usize> PartialEq for FixedString<N> {
    fn eq(&self, other: &Self) -> (r: bool) {
        bytes_equal(self.bytes.as_slice(), other.bytes.as_slice())
    }
}

impl<const N: usize> vstd::std_specs::cmp::PartialEqSpecImpl for FixedString<N> {
    open spec fn obeys_eq_spec() -> bool {
        true
    }

    open spec fn eq_spec(&self, other: &Self) -> bool {
        self@ == other@
    }
}

/// Whether two byte runs are equal.
fn bytes_equal(a: &[u8], b: &[u8]) -> (r: bool)
    ensures
        r == (a@ == b@),
{
    if a.len() != b.len() {
        return false;
    }
    let mut i: usize = 0;
    while i < a.len()
        invariant
            a@.len() == b@.len(),
            i <= a@.len(),
            forall|j: int| 0 <= j < i ==> a@[j] == b@[j],
        decreases a@.len() - i,
    {
        if a[i] != b[i] {
            return false;
        }
        i = i + 1;
    }
    proof {
        assert(a@ =~= b@);
    }
    true
}

/// A nul-terminated string with a capacity of 32 bytes.
pub type FixedString32 = FixedString<32>;

/// A nul-terminated string with a capacity of 56 bytes.
pub type FixedString56 = FixedString<56>;

/// A nul-terminated string with a capacity of 64 bytes.
pub type FixedString64 = FixedString<64>;

/// The error returned when text does not fit a [`FixedString`].
#[derive(Clone, Copy, Debug, PartialEq, Eq, Structural)]
pub enum ParseFixedStringError {
    /// The text with its terminator exceeds the capacity.
    BufferOverflow,
}

impl<const N: usize> View for FixedString<N> {
    type V = Seq<u8>;

    closed spec fn view(&self) -> Seq<u8> {
        self.bytes@
    }
}

impl<const N: usize> FixedString<N> {
    /// Creates an empty string.
    pub fn new() -> (r: Self)
        requires
            N >= 1,
        ensures
            r@ == Seq::<u8>::empty(),
            r.wf(),
    {
        let r = FixedString { bytes: Vec::new() };
        proof {
            assert(r@ =~= Seq::<u8>::empty());
        }
        r
    }

    /// The length of the string in bytes, without the terminator.
    pub fn len(&self) -> (r: usize)
        ensures
            r == self@.len(),
    {
        self.bytes.len()
    }

    /// Whether the string has no bytes.
    pub fn is_empty(&self) -> (r: bool)
        ensures
            r == (self@.len() == 0),
    {
        self.bytes.len() == 0
    }

    /// The bytes of the string, without the terminator.
    pub fn as_bytes(&self) -> (r: &[u8])
        ensures
            r@ == self@,
    {
        self.bytes.as_slice()
    }

    /// The string as text, if its bytes are valid UTF-8.
    pub fn to_str(&self) -> (r: Result<&str, core::str::Utf8Error>)
        ensures
            r is Ok <==> valid_utf8(self@),
            r matches Ok(s) ==> s.spec_bytes() == self@,
    {
        utf8_text(self.as_bytes())
    }

    /// The string as an owned text, if its bytes are valid UTF-8.
    pub fn to_string(&self) -> (r: Result<String, core::str::Utf8Error>)
        ensures
            r is Ok <==> valid_utf8(self@),
            r matches Ok(s) ==> encode_utf8(s@) == self@,
    {
        match self.to_str() {
            Ok(s) => Ok(s.to_owned()),
            Err(err) => Err(err),
        }
    }

    /// Builds a string from text. The text with its terminator must fit in `N` bytes; the
    /// string keeps the text up to its first zero byte, if it has one.
    pub fn from_str(s: &str) -> (r: Result<Self, ParseFixedStringError>)
        ensures
            s.spec_bytes().len() >= N <==> r == Err::<Self, ParseFixedStringError>(ParseFixedStringError::BufferOverflow),
            r matches Ok(v) ==> {
                &&& v.wf()
                &&& v@.len() <= s.spec_bytes().len()
                &&& v@ == s.spec_bytes().subrange(0, v@.len() as int)
                &&& (v@.len() == s.spec_bytes().len() || s.spec_bytes()[v@.len() as int] == 0)
            },
    {
        let b = s.as_bytes();
        if b.len() >= N {
            return Err(ParseFixedStringError::BufferOverflow);
        }
        let mut bytes: Vec<u8> = Vec::new();
        let mut i: usize = 0;
        while i < b.len() && b[i] != 0
            invariant
                i <= b@.len(),
                b@ == s.spec_bytes(),
                bytes@ == b@.subrange(0, i as int),
                nul_free(bytes@),
            decreases b@.len() - i,
        {
            bytes.push(b[i]);
            i = i + 1;
            proof {
                assert(bytes@ =~= b@.subrange(0, i as int));
            }
        }
        Ok(FixedString { bytes })
    }
}

/// At `s[pos + k]` is a zero byte, the first one from `pos` on.
pub open spec fn ends_string(s: Seq<u8>, pos: int, k: int) -> bool {
    &&& 0 <= k
    &&& s[pos + k] == 0
    &&& forall|j: int| pos <= j < pos + k ==> s[j] != 0
}

impl<const N: usize> FixedString<N> {
    /// Reads a string from the `N`-byte window at `pos`: the bytes before the window's first
    /// zero byte. The position advances by exactly `N`, and the bytes after the zero are skipped.
    pub fn read_window(buf: &[u8], pos: usize) -> (r: Result<(Self, usize), DecodeError>)
        requires
            pos <= buf@.len(),
        ensures
            pos + N > buf@.len() ==> r == Err::<(Self, usize), DecodeError>(DecodeError::Truncated { pos }),
            pos + N <= buf@.len() ==> ((forall|j: int| pos <= j < pos + N ==> buf@[j] != 0) <==> r == Err::<
                (Self, usize),
                DecodeError,
            >(DecodeError::MissingTerminator { pos })),
            r matches Ok((v, end)) ==> {
                &&& end == pos + N
                &&& end <= buf@.len()
                &&& v.wf()
                &&& v@ == buf@.subrange(pos as int, pos + v@.len())
                &&& ends_string(buf@, pos as int, v@.len() as int)
            },
            forall|k: int|
                0 <= k < N && pos + N <= buf@.len() && #[trigger] ends_string(buf@, pos as int, k) ==> (r matches Ok(
                    (v, end),
                ) && v@ == buf@.subrange(pos as int, pos + k) && end == pos + N),
    {
        let len = buf.len();
        if len - pos < N {
            return Err(DecodeError::Truncated { pos });
        }
        let mut k: usize = 0;
        while k < N && buf[pos + k] != 0
            invariant
                len == buf@.len(),
                k <= N,
                pos + N <= buf@.len(),
                forall|j: int| pos <= j < pos + k ==> buf@[j] != 0,
            decreases N - k,
        {
            k = k + 1;
        }
        if k == N {
            proof {
                assert forall|k2: int| 0 <= k2 < N && pos + N <= buf@.len() && #[trigger] ends_string(buf@, pos as int, k2)
                    implies false by {
                    assert(buf@[pos + k2] != 0);
                }
            }
            return Err(DecodeError::MissingTerminator { pos });
        }
        let mut bytes: Vec<u8> = Vec::new();
        let mut i: usize = 0;
        while i < k
            invariant
                i <= k < N,
                len == buf@.len(),
                pos + N <= buf@.len(),
                bytes@ == buf@.subrange(pos as int, pos + i),
                forall|j: int| pos <= j < pos + k ==> buf@[j] != 0,
            decreases k - i,
        {
            bytes.push(buf[pos + i]);
            i = i + 1;
            proof {
                assert(bytes@ =~= buf@.subrange(pos as int, pos + i));
            }
        }
        let v = FixedString { bytes };
        proof {
            assert(buf@[pos + k] == 0);
            assert forall|j: int| 0 <= j < v@.len() implies v@[j] != 0 by {
                assert(v@[j] == buf@[pos + j]);
            }
            assert forall|k2: int| 0 <= k2 < N && pos + N <= buf@.len() && #[trigger] ends_string(buf@, pos as int, k2)
                implies k2 == k by {
                if k2 < k {
                    assert(buf@[pos + k2] != 0);
                }
                if k < k2 {
                    assert(buf@[pos + k] != 0);
                }
            }
            assert(!(forall|j: int| pos <= j < pos + N ==> buf@[j] != 0)) by {
                assert(buf@[pos + k] == 0);
            }
        }
        Ok((v, pos + N))
    }
}

impl<const N: usize> Version for FixedString<N> {
    open spec fn spec_version(&self) -> u8 {
        1
    }

    open spec fn spec_supported(version: u8) -> bool {
        version == 1
    }

    open spec fn spec_kind() -> RecordKind {
        RecordKind::FixedString
    }

    open spec fn wf(&self) -> bool {
        self@.len() < N && nul_free(self@)
    }

    open spec fn spec_bytes(&self, e: Endian) -> Seq<u8> {
        self@ + zeros(N - self@.len())
    }

    open spec fn spec_accepts(&self, e: Endian, s: Seq<u8>) -> bool {
        &&& s.len() == N
        &&& self@.len() < N
        &&& s.subrange(0, self@.len() as int) == self@
        &&& s[self@.len() as int] == 0
    }

    open spec fn same(&self, other: &Self) -> bool {
        self@ == other@
    }

    proof fn lemma_canonical(&self, e: Endian) {
        let s = self.spec_bytes(e);
        assert(s.subrange(0, self@.len() as int) =~= self@);
        assert(s[self@.len() as int] == zeros(N - self@.len())[0]);
    }

    fn version(&self) -> (r: u8) {
        1
    }

    fn decode_payload(version: u8, e: Endian, buf: &[u8], pos: usize) -> (r: Result<(Self, usize), DecodeError>) {
        if version != 1 {
            return Err(DecodeError::UnsupportedVersion { record: RecordKind::FixedString, version, pos });
        }
        let r = Self::read_window(buf, pos);
        proof {
            if r is Ok {
                let v = r->Ok_0.0;
                if true {
                    let w = buf@.subrange(pos as int, pos + N);
                    assert(w.subrange(0, v@.len() as int) =~= v@);
                    assert(w[v@.len() as int] == buf@[pos + v@.len()]);
                }
            }
            assert forall|x: Self|
                x.spec_version() == version && x.wf() && pos + x.spec_bytes(e).len() <= buf@.len()
                    && #[trigger] x.spec_accepts(e, buf@.subrange(pos as int, pos + x.spec_bytes(e).len()))
                    implies (match r {
                    Ok((v, end)) => v.same(&x) && end == pos + x.spec_bytes(e).len(),
                    Err(_) => false,
                }) by {
                let n = x@.len() as int;
                let w = buf@.subrange(pos as int, pos + N);
                assert(w[n] == buf@[pos + n]);
                assert forall|j: int| pos <= j < pos + n implies buf@[j] != 0 by {
                    assert(w.subrange(0, n)[j - pos] == w[j - pos]);
                    assert(x@[j - pos] != 0);
                }
                assert(ends_string(buf@, pos as int, n));
                if r is Ok {
                    let v = r->Ok_0.0;
                    assert(w.subrange(0, n) =~= buf@.subrange(pos as int, pos + n));
                    assert(x@ =~= v@);
                }
            }
        }
        r
    }

    fn encode_payload(&self, e: Endian, out: &mut Vec<u8>) {
        let ghost start = out@;
        let mut i: usize = 0;
        while i < self.bytes.len()
            invariant
                i <= self@.len(),
                self@.len() < N,
                out@ == start + self@.subrange(0, i as int),
            decreases self@.len() - i,
        {
            out.push(self.bytes[i]);
            i = i + 1;
            proof {
                assert(out@ =~= start + self@.subrange(0, i as int));
            }
        }
        while i < N
            invariant
                self@.len() <= i <= N,
                out@ == start + self@ + zeros(i - self@.len()),
            decreases N - i,
        {
            out.push(0);
            i = i + 1;
            proof {
                assert(out@ =~= start + self@ + zeros(i - self@.len()));
            }
        }
    }
}

} // verus!
