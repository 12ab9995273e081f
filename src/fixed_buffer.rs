use vstd::prelude::*;
use vstd::slice::SliceAdditionalExecFns;
use vstd::string::StringSliceAdditionalSpecFns;

use crate::text::{encode_utf16_null_terminated as encode_utf16, utf16_of};

verus! {

/// Writes the UTF-16 code units of `utf8_str` and a terminating zero unit
/// at the start of `buffer`, and returns how many units that took, the zero
/// included. When they do not fit, returns `None` and leaves `buffer` as it
/// was.
pub fn encode_utf16_null_terminated(utf8_str: &str, buffer: &mut [u16]) -> (r: Option<usize>)
    ensures
        final(buffer)@.len() == old(buffer)@.len(),
        utf16_of(utf8_str@).len() + 1 <= old(buffer)@.len() <==> r is Some,
        r matches Some(n) ==> {
            &&& n == utf16_of(utf8_str@).len() + 1
            &&& final(buffer)@ == utf16_of(utf8_str@).push(0u16) + old(buffer)@.skip(n as int)
        },
        r is None ==> final(buffer)@ == old(buffer)@,
{
    let units = encode_utf16(utf8_str);
    let n = units.len();
    if n > buffer.len() {
        return None;
    }
    let mut i: usize = 0;
    while i < n
        invariant
            n == units@.len(),
            n <= buffer@.len(),
            buffer@.len() == old(buffer)@.len(),
            i <= n,
            buffer@.subrange(0, i as int) == units@.subrange(0, i as int),
            buffer@.skip(n as int) == old(buffer)@.skip(n as int),
        decreases n - i,
    {
        let ghost prev = buffer@;
        buffer.set(i, units[i]);
        proof {
            assert(buffer@.subrange(0, i + 1) =~= units@.subrange(0, i + 1)) by {
                assert(prev.subrange(0, i as int) =~= units@.subrange(0, i as int));
            };
            assert(buffer@.skip(n as int) =~= prev.skip(n as int));
        }
        i = i + 1;
    }
    assert(buffer@ =~= buffer@.subrange(0, n as int) + buffer@.skip(n as int));
    assert(units@.subrange(0, n as int) =~= units@);
    Some(n)
}

} // verus!

verus! {

/// Failure to append text: it does not fit in what is left of the buffer.
#[derive(Clone, Copy, Debug, PartialEq, Eq, Structural)]
pub struct WriteError {}

/// Accumulates UTF-8 text in a buffer of fixed capacity.
pub struct FixedBuffer {
    buf: Vec<u8>,
    pos: usize,
}

impl FixedBuffer {
    /// The text written so far.
    pub closed spec fn spec_written(&self) -> Seq<u8> {
        self.buf@.subrange(0, self.pos as int)
    }

    /// How many bytes the buffer can hold in all.
    pub closed spec fn spec_capacity(&self) -> nat {
        self.buf@.len()
    }

    pub closed spec fn wf(&self) -> bool {
        self.pos <= self.buf@.len()
    }

    /// An empty buffer whose capacity is the length of `buf`.
    pub fn new(buf: Vec<u8>) -> (r: FixedBuffer)
        ensures
            r.wf(),
            r.spec_written() == Seq::<u8>::empty(),
            r.spec_capacity() == buf@.len(),
    {
        FixedBuffer { buf, pos: 0 }
    }

    /// Forgets what was written; the capacity stays.
    pub fn clear(&mut self)
        requires
            old(self).wf(),
        ensures
            final(self).wf(),
            final(self).spec_written() == Seq::<u8>::empty(),
            final(self).spec_capacity() == old(self).spec_capacity(),
    {
        self.pos = 0;
    }

    /// A copy of the text written so far.
    pub fn as_bytes(&self) -> (r: Vec<u8>)
        requires
            self.wf(),
        ensures
            r@ == self.spec_written(),
            r@.len() <= self.spec_capacity(),
    {
        let mut out: Vec<u8> = Vec::new();
        let mut i: usize = 0;
        while i < self.pos
            invariant
                self.wf(),
                i <= self.pos,
                out@ == self.buf@.subrange(0, i as int),
            decreases self.pos - i,
        {
            out.push(self.buf[i]);
            i = i + 1;
            assert(out@ =~= self.buf@.subrange(0, i as int));
        }
        out
    }

    /// Number of bytes written.
    pub fn len(&self) -> (r: usize)
        requires
            self.wf(),
        ensures
            r == self.spec_written().len(),
            r <= self.spec_capacity(),
    {
        self.pos
    }

    /// Number of bytes the buffer can hold in all.
    pub fn capacity(&self) -> (r: usize)
        ensures
            r == self.spec_capacity(),
    {
        self.buf.len()
    }

    /// Whether nothing has been written.
    pub fn is_empty(&self) -> (r: bool)
        requires
            self.wf(),
        ensures
            r == (self.spec_written().len() == 0),
    {
        self.pos == 0
    }

    /// Appends the UTF-8 bytes of `s` when they fit in the space left;
    /// otherwise writes nothing and fails.
    pub fn write_str(&mut self, s: &str) -> (r: Result<(), WriteError>)
        requires
            old(self).wf(),
        ensures
            final(self).wf(),
            final(self).spec_capacity() == old(self).spec_capacity(),
            old(self).spec_written().len() + s.spec_bytes().len() <= old(self).spec_capacity()
                <==> r is Ok,
            r is Ok ==> final(self).spec_written() == old(self).spec_written() + s.spec_bytes(),
            r is Err ==> final(self).spec_written() == old(self).spec_written(),
    {
        let bytes = s.as_bytes();
        let remaining = self.buf.len() - self.pos;
        if bytes.len() > remaining {
            return Err(WriteError {});
        }
        let cap = self.buf.len();
        let start = self.pos;
        let mut k: usize = 0;
        while k < bytes.len()
            invariant
                start + bytes@.len() <= self.buf@.len(),
                self.buf@.len() == old(self).buf@.len(),
                self.buf@.len() == cap,
                self.pos == start,
                start == old(self).pos,
                k <= bytes@.len(),
                bytes@ == s.spec_bytes(),
                self.buf@.subrange(0, start as int) == old(self).buf@.subrange(0, start as int),
                self.buf@.subrange(start as int, start + k) == bytes@.subrange(0, k as int),
            decreases bytes@.len() - k,
        {
            let ghost prev = self.buf@;
            self.buf.set(start + k, bytes[k]);
            proof {
                assert(self.buf@.subrange(0, start as int) =~= prev.subrange(0, start as int));
                assert(self.buf@.subrange(start as int, start + k + 1) =~= bytes@.subrange(
                    0,
                    k + 1,
                )) by {
                    assert(prev.subrange(start as int, start + k) =~= bytes@.subrange(0, k as int));
                };
            }
            k = k + 1;
        }
        self.pos = start + bytes.len();
        proof {
            let w = self.buf@.subrange(0, self.pos as int);
            assert(w =~= self.buf@.subrange(0, start as int) + self.buf@.subrange(
                start as int,
                start + k,
            ));
            assert(bytes@.subrange(0, k as int) =~= bytes@);
        }
        Ok(())
    }
}

} // verus!
