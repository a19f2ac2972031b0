//! A flat little-endian byte stream for save states: a [`Writer`] appends
//! scalars and byte runs, a [`Reader`] consumes them in the same order and
//! fails with [`StateError::Truncated`] when the stream runs out.
use vstd::prelude::*;

verus! {

/// Why a save-state stream could not be decoded.
#[derive(Clone, Copy, PartialEq, Eq, Structural, Debug)]
pub enum StateError {
    /// The stream ended before the value being read.
    Truncated,
    /// A byte that encodes no value of its field (a flag other than 0 or 1).
    Invalid,
}

/// The four little-endian bytes of a `u32`.
pub open spec fn u32_le(x: u32) -> Seq<u8> {
    seq![(x % 256) as u8, ((x / 256) % 256) as u8, ((x / 65536) % 256) as u8, (x / 16777216) as u8]
}

/// The `u32` whose little-endian bytes are `b[0..4]`.
pub open spec fn u32_from_le(b: Seq<u8>) -> u32 {
    (b[0] + b[1] * 256 + b[2] * 65536 + b[3] * 16777216) as u32
}

/// The little-endian bytes of a run of `u32`s.
pub open spec fn u32s_le(s: Seq<u32>) -> Seq<u8>
    decreases s.len(),
{
    if s.len() == 0 {
        Seq::empty()
    } else {
        u32s_le(s.drop_last()) + u32_le(s.last())
    }
}

/// Decoding the little-endian encoding of a `u32` gives the value back.
pub proof fn lemma_u32_le_round_trip(x: u32)
    ensures
        u32_le(x).len() == 4,
        u32_from_le(u32_le(x)) == x,
{
}

/// An append-only save-state byte stream.
pub struct Writer {
    buf: Vec<u8>,
}

impl View for Writer {
    type V = Seq<u8>;

    open spec fn view(&self) -> Seq<u8> {
        self.spec_bytes()
    }
}

impl Writer {
    /// The bytes written so far.
    pub closed spec fn spec_bytes(&self) -> Seq<u8> {
        self.buf@
    }

    /// An empty stream.
    pub fn new() -> (w: Writer)
        ensures
            w@ == Seq::<u8>::empty(),
    {
        Writer { buf: Vec::new() }
    }

    /// Append one byte.
    pub fn u8(&mut self, v: u8)
        ensures
            final(self)@ == old(self)@.push(v),
    {
        self.buf.push(v);
    }

    /// Append a flag as one byte (1 or 0).
    pub fn bool(&mut self, v: bool)
        ensures
            final(self)@ == old(self)@.push(if v { 1u8 } else { 0u8 }),
    {
        self.buf.push(if v { 1u8 } else { 0u8 });
    }

    /// Append a `u32` little-endian.
    pub fn u32(&mut self, v: u32)
        ensures
            final(self)@ == old(self)@ + u32_le(v),
    {
        self.buf.push((v % 256) as u8);
        self.buf.push(((v / 256) % 256) as u8);
        self.buf.push(((v / 65536) % 256) as u8);
        self.buf.push((v / 16777216) as u8);
        assert(self.buf@ =~= old(self)@ + u32_le(v));
    }

    /// Append every `u32` of a slice, little-endian, in order.
    pub fn u32_slice(&mut self, vs: &[u32])
        ensures
            final(self)@ == old(self)@ + u32s_le(vs@),
    {
        let mut i: usize = 0;
        while i < vs.len()
            invariant
                0 <= i <= vs.len(),
                self@ == old(self)@ + u32s_le(vs@.subrange(0, i as int)),
            decreases vs.len() - i,
        {
            self.u32(vs[i]);
            assert(vs@.subrange(0, i as int + 1).drop_last() =~= vs@.subrange(0, i as int));
            assert(self@ =~= old(self)@ + u32s_le(vs@.subrange(0, i as int + 1)));
            i += 1;
        }
        assert(vs@.subrange(0, i as int) =~= vs@);
    }

    /// Append a byte run.
    pub fn bytes(&mut self, bs: &[u8])
        ensures
            final(self)@ == old(self)@ + bs@,
    {
        let mut i: usize = 0;
        while i < bs.len()
            invariant
                0 <= i <= bs.len(),
                self@ == old(self)@ + bs@.subrange(0, i as int),
            decreases bs.len() - i,
        {
            self.buf.push(bs[i]);
            assert(self@ =~= old(self)@ + bs@.subrange(0, i as int + 1));
            i += 1;
        }
        assert(bs@.subrange(0, i as int) =~= bs@);
    }

    /// The finished stream.
    pub fn into_vec(self) -> (v: Vec<u8>)
        ensures
            v@ == self@,
    {
        self.buf
    }
}

/// A cursor over a save-state byte stream.
pub struct Reader {
    data: Vec<u8>,
    pos: usize,
}

impl Reader {
    /// The bytes not consumed yet.
    pub closed spec fn rest(&self) -> Seq<u8> {
        self.data@.subrange(self.pos as int, self.data@.len() as int)
    }

    /// Cursor well-formedness: the position lies within the stream.
    pub closed spec fn wf(&self) -> bool {
        self.pos <= self.data.len()
    }

    /// A reader positioned at the start of `bytes`.
    pub fn new(bytes: &[u8]) -> (r: Reader)
        ensures
            r.wf(),
            r.rest() == bytes@,
    {
        let mut data: Vec<u8> = Vec::new();
        let mut i: usize = 0;
        while i < bytes.len()
            invariant
                0 <= i <= bytes.len(),
                data@ == bytes@.subrange(0, i as int),
            decreases bytes.len() - i,
        {
            data.push(bytes[i]);
            assert(data@ =~= bytes@.subrange(0, i as int + 1));
            i += 1;
        }
        assert(data@ =~= bytes@);
        let r = Reader { data, pos: 0 };
        assert(r.rest() =~= bytes@);
        r
    }

    /// Consume one byte.
    pub fn u8(&mut self) -> (r: Result<u8, StateError>)
        requires
            old(self).wf(),
        ensures
            final(self).wf(),
            old(self).rest().len() >= 1 ==> r == Ok::<u8, StateError>(old(self).rest()[0])
                && final(self).rest() == old(self).rest().subrange(1, old(self).rest().len() as int),
            old(self).rest().len() < 1 ==> r == Err::<u8, StateError>(StateError::Truncated)
                && final(self).rest() == old(self).rest(),
    {
        if self.pos < self.data.len() {
            let v = self.data[self.pos];
            self.pos += 1;
            assert(self.rest() =~= old(self).rest().subrange(1, old(self).rest().len() as int));
            Ok(v)
        } else {
            Err(StateError::Truncated)
        }
    }

    /// Consume one byte as a flag: 0 is `false`, 1 is `true`, anything else is
    /// [`StateError::Invalid`].
    pub fn bool(&mut self) -> (r: Result<bool, StateError>)
        requires
            old(self).wf(),
        ensures
            final(self).wf(),
            old(self).rest().len() >= 1 && old(self).rest()[0] <= 1 ==> r == Ok::<bool, StateError>(
                old(self).rest()[0] == 1,
            ) && final(self).rest() == old(self).rest().subrange(1, old(self).rest().len() as int),
            old(self).rest().len() >= 1 && old(self).rest()[0] > 1 ==> r == Err::<bool, StateError>(
                StateError::Invalid,
            ),
            old(self).rest().len() < 1 ==> r == Err::<bool, StateError>(StateError::Truncated)
                && final(self).rest() == old(self).rest(),
    {
        match self.u8() {
            Ok(b) => {
                if b == 0 {
                    Ok(false)
                } else if b == 1 {
                    Ok(true)
                } else {
                    Err(StateError::Invalid)
                }
            },
            Err(e) => Err(e),
        }
    }

    /// Consume a little-endian `u32`.
    pub fn u32(&mut self) -> (r: Result<u32, StateError>)
        requires
            old(self).wf(),
        ensures
            final(self).wf(),
            old(self).rest().len() >= 4 ==> r == Ok::<u32, StateError>(u32_from_le(old(self).rest()))
                && final(self).rest() == old(self).rest().subrange(4, old(self).rest().len() as int),
            old(self).rest().len() < 4 ==> r == Err::<u32, StateError>(StateError::Truncated)
                && final(self).rest() == old(self).rest(),
    {
        if self.data.len() - self.pos >= 4 {
            let p = self.pos;
            let b0 = self.data[p] as u32;
            let b1 = self.data[p + 1] as u32;
            let b2 = self.data[p + 2] as u32;
            let b3 = self.data[p + 3] as u32;
            self.pos = p + 4;
            assert(self.rest() =~= old(self).rest().subrange(4, old(self).rest().len() as int));
            Ok(b0 + b1 * 256 + b2 * 65536 + b3 * 16777216)
        } else {
            Err(StateError::Truncated)
        }
    }

    /// Consume `out.len()` bytes into `out`.
    pub fn bytes_into(&mut self, out: &mut [u8]) -> (r: Result<(), StateError>)
        requires
            old(self).wf(),
        ensures
            final(self).wf(),
            final(out)@.len() == old(out)@.len(),
            old(self).rest().len() >= old(out)@.len() ==> r is Ok
                && final(out)@ == old(self).rest().subrange(0, old(out)@.len() as int)
                && final(self).rest() == old(self).rest().subrange(old(out)@.len() as int, old(self).rest().len() as int),
            old(self).rest().len() < old(out)@.len() ==> r == Err::<(), StateError>(StateError::Truncated)
                && final(out)@ == old(out)@ && final(self).rest() == old(self).rest(),
    {
        let n = out.len();
        if self.data.len() - self.pos < n {
            return Err(StateError::Truncated);
        }
        let p = self.pos;
        let mut i: usize = 0;
        while i < n
            invariant
                0 <= i <= n,
                n == out@.len(),
                p == self.pos,
                p + n <= self.data.len(),
                self.data@ == old(self).data@,
                self.pos == old(self).pos,
                forall|j: int| 0 <= j < i ==> #[trigger] out@[j] == self.data@[p + j],
            decreases n - i,
        {
            out[i] = self.data[p + i];
            i += 1;
        }
        self.pos = p + n;
        assert(out@ =~= old(self).rest().subrange(0, n as int));
        assert(self.rest() =~= old(self).rest().subrange(n as int, old(self).rest().len() as int));
        Ok(())
    }

    /// Consume `len` bytes as a new vector.
    pub fn bytes_vec(&mut self, len: usize) -> (r: Result<Vec<u8>, StateError>)
        requires
            old(self).wf(),
        ensures
            final(self).wf(),
            old(self).rest().len() >= len ==> r is Ok
                && r->Ok_0@ == old(self).rest().subrange(0, len as int)
                && final(self).rest() == old(self).rest().subrange(len as int, old(self).rest().len() as int),
            old(self).rest().len() < len ==> r == Err::<Vec<u8>, StateError>(StateError::Truncated)
                && final(self).rest() == old(self).rest(),
    {
        if self.data.len() - self.pos < len {
            return Err(StateError::Truncated);
        }
        let p = self.pos;
        let mut v: Vec<u8> = Vec::new();
        let mut i: usize = 0;
        while i < len
            invariant
                0 <= i <= len,
                p + len <= self.data.len(),
                self.data@ == old(self).data@,
                self.pos == p,
                p == old(self).pos,
                v@ == self.data@.subrange(p as int, p + i),
            decreases len - i,
        {
            v.push(self.data[p + i]);
            assert(v@ =~= self.data@.subrange(p as int, p + i + 1));
            i += 1;
        }
        self.pos = p + len;
        assert(v@ =~= old(self).rest().subrange(0, len as int));
        assert(self.rest() =~= old(self).rest().subrange(len as int, old(self).rest().len() as int));
        Ok(v)
    }

    /// Consume `out.len()` little-endian `u32`s into `out`.
    pub fn u32_slice_into(&mut self, out: &mut [u32]) -> (r: Result<(), StateError>)
        requires
            old(self).wf(),
        ensures
            final(self).wf(),
            final(out)@.len() == old(out)@.len(),
            r is Ok ==> u32s_le(final(out)@) == old(self).rest().subrange(0, (4 * old(out)@.len()) as int)
                && final(self).rest() == old(self).rest().subrange((4 * old(out)@.len()) as int, old(self).rest().len() as int),
            old(self).rest().len() >= 4 * old(out)@.len() <==> r is Ok,
    {
        let n = out.len();
        let mut i: usize = 0;
        while i < n
            invariant
                0 <= i <= n,
                n == out@.len(),
                out@.len() == old(out)@.len(),
                self.wf(),
                old(self).rest().len() >= 4 * i,
                self.rest() == old(self).rest().subrange(4 * i, old(self).rest().len() as int),
                u32s_le(out@.subrange(0, i as int)) == old(self).rest().subrange(0, 4 * i),
            decreases n - i,
        {
            let ghost before = self.rest();
            let v = self.u32();
            match v {
                Ok(x) => {
                    assert(before.len() >= 4);
                    assert(x == u32_from_le(before));
                    proof {
                        lemma_u32_le_bytes(before);
                    }
                    assert(u32_le(x) == before.subrange(0, 4));
                    let ghost prev_out = out@;
                    out[i] = x;
                    assert(out@.subrange(0, i as int) =~= prev_out.subrange(0, i as int));
                    assert(out@.subrange(0, i as int + 1).drop_last() =~= out@.subrange(0, i as int));
                    assert(out@.subrange(0, i as int + 1).last() == x);
                    assert(u32s_le(out@.subrange(0, i as int + 1)) == u32s_le(out@.subrange(0, i as int))
                        + u32_le(x));
                    assert(old(self).rest().subrange(0, 4 * i + 4) =~= old(self).rest().subrange(0, 4 * i)
                        + before.subrange(0, 4));
                    assert(self.rest() =~= old(self).rest().subrange(4 * i + 4, old(self).rest().len() as int));
                    assert(u32s_le(out@.subrange(0, i as int + 1)) =~= old(self).rest().subrange(0, 4 * i + 4));
                    i += 1;
                },
                Err(e) => {
                    assert(old(self).rest().len() < 4 * n);
                    return Err(e);
                },
            }
        }
        assert(out@.subrange(0, n as int) =~= out@);
        Ok(())
    }
}

/// The four bytes a `u32` was decoded from re-encode to themselves.
pub proof fn lemma_u32_le_bytes(b: Seq<u8>)
    requires
        b.len() >= 4,
    ensures
        u32_le(u32_from_le(b)) == b.subrange(0, 4),
{
    let (b0, b1, b2, b3) = (b[0] as u32, b[1] as u32, b[2] as u32, b[3] as u32);
    let x = u32_from_le(b);
    assert(x == b0 + b1 * 256 + b2 * 65536 + b3 * 16777216);
    assert(x % 256 == b0 && (x / 256) % 256 == b1 && (x / 65536) % 256 == b2 && x / 16777216 == b3)
        by (nonlinear_arith)
        requires
            x == b0 + b1 * 256 + b2 * 65536 + b3 * 16777216,
            b0 < 256,
            b1 < 256,
            b2 < 256,
            b3 < 256,
    ;
    assert(u32_le(x) =~= b.subrange(0, 4));
}

} // verus!
