//! A length-prefixed sequence of versioned elements.
use vstd::prelude::*;
use crate::version::{Version, Versioned};
use crate::wire::{bytes32, lemma_u32_at, read_u32, write_u32, DecodeError, Endian, RecordKind, Wire};

verus! {

/// A length-prefixed, homogeneous sequence of versioned elements.
///
/// On the wire: a 32-bit element count, then each element with its own version selector,
/// without padding or terminator.
#[derive(Debug)]
pub enum Array<T> {
    /// The first and only layout.
    V1 {
        /// The elements, in stream order.
        elements: Vec<Versioned<T>>,
    },
}

/// The bytes of the elements of `xs`, back to back.
pub open spec fn elems_bytes<T: Version>(xs: Seq<Versioned<T>>, e: Endian) -> Seq<u8>
    decreases xs.len(),
{
    if xs.len() == 0 {
        Seq::empty()
    } else {
        elems_bytes(xs.drop_last(), e) + xs.last().spec_bytes(e)
    }
}

/// `s` holds exactly the elements of `xs`, back to back.
pub open spec fn elems_accept<T: Version>(xs: Seq<Versioned<T>>, e: Endian, s: Seq<u8>) -> bool
    decreases xs.len(),
{
    if xs.len() == 0 {
        s.len() == 0
    } else {
        let n = xs.last().spec_bytes(e).len() as int;
        &&& s.len() >= n
        &&& elems_accept(xs.drop_last(), e, s.subrange(0, s.len() - n))
        &&& xs.last().spec_accepts(e, s.subrange(s.len() - n, s.len() as int))
    }
}

/// Cutting an accepted run of elements after its first `i` elements.
pub proof fn lemma_elems_prefix<T: Version>(xs: Seq<Versioned<T>>, e: Endian, s: Seq<u8>, i: int)
    requires
        elems_accept(xs, e, s),
        0 <= i <= xs.len(),
    ensures
        s.len() == elems_bytes(xs, e).len(),
        elems_bytes(xs.take(i), e).len() <= s.len(),
        elems_accept(xs.take(i), e, s.subrange(0, elems_bytes(xs.take(i), e).len() as int)),
        i < xs.len() ==> {
            let a = elems_bytes(xs.take(i), e).len() as int;
            let n = xs[i].spec_bytes(e).len() as int;
            &&& elems_bytes(xs.take(i + 1), e).len() == a + n
            &&& a + n <= s.len()
            &&& xs[i].spec_accepts(e, s.subrange(a, a + n))
        },
    decreases xs.len(),
{
    if xs.len() == 0 {
        assert(xs.take(i) =~= xs);
        assert(s.subrange(0, 0) =~= s);
    } else {
        let n = xs.last().spec_bytes(e).len() as int;
        let init = xs.drop_last();
        let s0 = s.subrange(0, s.len() - n);
        if i == xs.len() {
            lemma_elems_prefix(init, e, s0, init.len() as int);
            assert(xs.take(i) =~= xs);
            assert(s.subrange(0, s.len() as int) =~= s);
            assert(init.take(init.len() as int) =~= init);
        } else {
            lemma_elems_prefix(init, e, s0, i);
            assert(init.take(i) =~= xs.take(i));
            let a = elems_bytes(xs.take(i), e).len() as int;
            assert(s0.subrange(0, a) =~= s.subrange(0, a));
            if i + 1 < xs.len() {
                assert(init.take(i + 1) =~= xs.take(i + 1));
                assert(init[i] == xs[i]);
                let m = xs[i].spec_bytes(e).len() as int;
                assert(s0.subrange(a, a + m) =~= s.subrange(a, a + m));
            } else {
                assert(xs.take(i + 1) =~= xs);
                assert(xs.take(i) =~= init);
                assert(init.take(init.len() as int) =~= init);
                lemma_elems_prefix(init, e, s0, init.len() as int);
            }
        }
    }
}

/// Extending an accepted run by one element.
proof fn lemma_elems_push<T: Version>(xs: Seq<Versioned<T>>, x: Versioned<T>, e: Endian, s: Seq<u8>, a: int, b: int)
    requires
        0 <= a <= b <= s.len(),
        elems_accept(xs, e, s.subrange(0, a)),
        b - a == x.spec_bytes(e).len(),
        x.spec_accepts(e, s.subrange(a, b)),
    ensures
        elems_accept(xs.push(x), e, s.subrange(0, b)),
        elems_bytes(xs.push(x), e) == elems_bytes(xs, e) + x.spec_bytes(e),
{
    assert(xs.push(x).drop_last() =~= xs);
    assert(s.subrange(0, b).subrange(0, a) =~= s.subrange(0, a));
    assert(s.subrange(0, b).subrange(a, b) =~= s.subrange(a, b));
}

/// The canonical bytes of a run of well-formed elements are accepted.
proof fn lemma_elems_canonical<T: Version>(xs: Seq<Versioned<T>>, e: Endian)
    requires
        forall|j: int| 0 <= j < xs.len() ==> (#[trigger] xs[j]).wf(),
    ensures
        elems_accept(xs, e, elems_bytes(xs, e)),
    decreases xs.len(),
{
    if xs.len() > 0 {
        let init = xs.drop_last();
        lemma_elems_canonical(init, e);
        xs.last().lemma_canonical(e);
        let s = elems_bytes(xs, e);
        let n = xs.last().spec_bytes(e).len() as int;
        assert(s.subrange(0, s.len() - n) =~= elems_bytes(init, e));
        assert(s.subrange(s.len() - n, s.len() as int) =~= xs.last().spec_bytes(e));
    }
}

impl<T> Array<T> {
    /// The elements, in stream order.
    pub open spec fn spec_elements(&self) -> Seq<Versioned<T>> {
        match self {
            Array::V1 { elements } => elements@,
        }
    }

    /// An empty array.
    pub fn new() -> (r: Self)
        ensures
            r.spec_elements().len() == 0,
    {
        Array::V1 { elements: Vec::new() }
    }

    /// Wraps elements.
    pub fn from_elements(elements: Vec<Versioned<T>>) -> (r: Self)
        ensures
            r.spec_elements() == elements@,
    {
        Array::V1 { elements }
    }

    /// The elements, in stream order.
    pub fn elements(&self) -> (r: &Vec<Versioned<T>>)
        ensures
            r@ == self.spec_elements(),
    {
        match self {
            Array::V1 { elements } => elements,
        }
    }

    /// The number of elements.
    pub fn len(&self) -> (r: usize)
        ensures
            r == self.spec_elements().len(),
    {
        self.elements().len()
    }

    /// Whether there are no elements.
    pub fn is_empty(&self) -> (r: bool)
        ensures
            r == (self.spec_elements().len() == 0),
    {
        self.elements().len() == 0
    }
}

impl<T: Version> Version for Array<T> {
    open spec fn spec_version(&self) -> u8 {
        1
    }

    open spec fn spec_supported(version: u8) -> bool {
        version == 1
    }

    open spec fn spec_kind() -> RecordKind {
        RecordKind::Array
    }

    open spec fn wf(&self) -> bool {
        &&& self.spec_elements().len() <= u32::MAX
        &&& forall|j: int| 0 <= j < self.spec_elements().len() ==> (#[trigger] self.spec_elements()[j]).wf()
    }

    open spec fn spec_bytes(&self, e: Endian) -> Seq<u8> {
        bytes32(e, self.spec_elements().len() as u32) + elems_bytes(self.spec_elements(), e)
    }

    open spec fn spec_accepts(&self, e: Endian, s: Seq<u8>) -> bool {
        &&& s.len() >= 4
        &&& s.subrange(0, 4) == bytes32(e, self.spec_elements().len() as u32)
        &&& elems_accept(self.spec_elements(), e, s.subrange(4, s.len() as int))
    }

    open spec fn same(&self, other: &Self) -> bool {
        &&& self.spec_elements().len() == other.spec_elements().len()
        &&& forall|j: int|
            0 <= j < self.spec_elements().len() ==> (#[trigger] self.spec_elements()[j]).same(&other.spec_elements()[j])
    }

    proof fn lemma_canonical(&self, e: Endian) {
        lemma_elems_canonical(self.spec_elements(), e);
        let s = self.spec_bytes(e);
        assert(s.subrange(0, 4) =~= bytes32(e, self.spec_elements().len() as u32));
        assert(s.subrange(4, s.len() as int) =~= elems_bytes(self.spec_elements(), e));
    }

    fn version(&self) -> (r: u8) {
        1
    }

    fn decode_payload(version: u8, e: Endian, buf: &[u8], pos: usize) -> (r: Result<(Self, usize), DecodeError>) {
        if version != 1 {
            return Err(DecodeError::UnsupportedVersion { record: RecordKind::Array, version, pos });
        }
        let (count, start) = match read_u32(e, buf, pos) {
            Ok(t) => t,
            Err(err) => {
                return Err(err);
            },
        };
        proof {
            assert forall|x: Self|
                x.spec_version() == version && x.wf() && pos + x.spec_bytes(e).len() <= buf@.len()
                    && #[trigger] x.spec_accepts(e, buf@.subrange(pos as int, pos + x.spec_bytes(e).len()))
                    implies x.spec_elements().len() == count as int by {
                let w = buf@.subrange(pos as int, pos + x.spec_bytes(e).len());
                assert(w.subrange(0, 4) =~= buf@.subrange(pos as int, pos + 4));
                lemma_u32_at(e, buf@, pos as int, x.spec_elements().len() as u32);
            }
        }
        let mut elements: Vec<Versioned<T>> = Vec::new();
        let mut p: usize = start;
        let mut i: u32 = 0;
        while i < count
            invariant
                version == 1,
                start == pos + 4,
                start <= p <= buf@.len(),
                i <= count,
                elements@.len() == i,
                p == start + elems_bytes(elements@, e).len(),
                elems_accept(elements@, e, buf@.subrange(start as int, p as int)),
                forall|j: int| 0 <= j < elements@.len() ==> (#[trigger] elements@[j]).wf(),
                forall|x: Self|
                    x.spec_version() == version && x.wf() && pos + x.spec_bytes(e).len() <= buf@.len()
                        && #[trigger] x.spec_accepts(e, buf@.subrange(pos as int, pos + x.spec_bytes(e).len()))
                        ==> {
                        &&& x.spec_elements().len() == count as int
                        &&& p == start + elems_bytes(x.spec_elements().take(i as int), e).len()
                        &&& forall|j: int| 0 <= j < i ==> (#[trigger] elements@[j]).same(&x.spec_elements()[j])
                    },
            decreases count - i,
        {
            let r = Versioned::<T>::read(e, buf, p);
            match r {
                Ok((v, next)) => {
                    proof {
                        let s = buf@.subrange(start as int, next as int);
                        assert(s.subrange(0, p - start) =~= buf@.subrange(start as int, p as int));
                        assert(s.subrange(p - start, next - start) =~= buf@.subrange(p as int, next as int));
                        lemma_elems_push(elements@, v, e, s, p - start, next - start);
                        assert(s.subrange(0, next - start) =~= s);
                        assert forall|x: Self|
                            x.spec_version() == version && x.wf() && pos + x.spec_bytes(e).len() <= buf@.len()
                                && #[trigger] x.spec_accepts(e, buf@.subrange(pos as int, pos + x.spec_bytes(e).len()))
                                implies {
                                &&& next == start + elems_bytes(x.spec_elements().take(i + 1), e).len()
                                &&& v.same(&x.spec_elements()[i as int])
                            } by {
                            let xs = x.spec_elements();
                            let w = buf@.subrange(pos as int, pos + x.spec_bytes(e).len());
                            let t = w.subrange(4, w.len() as int);
                            lemma_elems_prefix(xs, e, t, i as int);
                            let a = elems_bytes(xs.take(i as int), e).len() as int;
                            let n = xs[i as int].spec_bytes(e).len() as int;
                            assert(t.subrange(a, a + n) =~= buf@.subrange(p as int, p + n));
                            assert(xs[i as int].wf());
                        }
                    }
                    elements.push(v);
                    p = next;
                    i = i + 1;
                },
                Err(err) => {
                    proof {
                        assert forall|x: Self|
                            x.spec_version() == version && x.wf() && pos + x.spec_bytes(e).len() <= buf@.len()
                                && #[trigger] x.spec_accepts(e, buf@.subrange(pos as int, pos + x.spec_bytes(e).len()))
                                implies false by {
                            let xs = x.spec_elements();
                            let w = buf@.subrange(pos as int, pos + x.spec_bytes(e).len());
                            let t = w.subrange(4, w.len() as int);
                            lemma_elems_prefix(xs, e, t, i as int);
                            let a = elems_bytes(xs.take(i as int), e).len() as int;
                            let n = xs[i as int].spec_bytes(e).len() as int;
                            assert(t.subrange(a, a + n) =~= buf@.subrange(p as int, p + n));
                            assert(xs[i as int].wf());
                        }
                    }
                    return Err(err);
                },
            }
        }
        let v = Array::V1 { elements };
        proof {
            let s = buf@.subrange(pos as int, p as int);
            assert(s.subrange(0, 4) =~= buf@.subrange(pos as int, pos + 4));
            lemma_u32_at(e, buf@, pos as int, count);
            assert(s.subrange(4, s.len() as int) =~= buf@.subrange(start as int, p as int));
            assert forall|x: Self|
                x.spec_version() == version && x.wf() && pos + x.spec_bytes(e).len() <= buf@.len()
                    && #[trigger] x.spec_accepts(e, buf@.subrange(pos as int, pos + x.spec_bytes(e).len()))
                    implies v.same(&x) && p == pos + x.spec_bytes(e).len() by {
                let xs = x.spec_elements();
                assert(xs.take(count as int) =~= xs);
            }
        }
        Ok((v, p))
    }

    fn encode_payload(&self, e: Endian, out: &mut Vec<u8>) {
        let elements = self.elements();
        write_u32(e, elements.len() as u32, out);
        let ghost prefix = out@;
        let mut i: usize = 0;
        while i < elements.len()
            invariant
                i <= elements@.len(),
                elements@ == self.spec_elements(),
                self.wf(),
                out@ == prefix + elems_bytes(elements@.take(i as int), e),
                prefix == old(out)@ + bytes32(e, elements@.len() as u32),
            decreases elements@.len() - i,
        {
            elements[i].encode(e, out);
            proof {
                assert(elements@.take(i + 1).drop_last() =~= elements@.take(i as int));
                assert(self.spec_elements()[i as int].wf());
            }
            i = i + 1;
        }
        proof {
            assert(elements@.take(i as int) =~= elements@);
        }
    }
}

} // verus!
