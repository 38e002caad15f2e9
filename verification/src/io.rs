//! The buffer behind the blocking writer of a channel: writes collect bytes,
//! and a flush hands all of them to the channel at once.
use vstd::prelude::*;

verus! {

/// Bytes written and not yet flushed.
pub struct WriteBuffer {
    buf: Vec<u8>,
}

impl View for WriteBuffer {
    type V = Seq<u8>;

    closed spec fn view(&self) -> Seq<u8> {
        self.buf@
    }
}

/// The bytes held after writing `data`.
pub open spec fn after_write(held: Seq<u8>, data: Seq<u8>) -> Seq<u8> {
    held + data
}

impl WriteBuffer {
    pub fn new() -> (r: WriteBuffer)
        ensures
            r@ == Seq::<u8>::empty(),
    {
        WriteBuffer { buf: Vec::new() }
    }

    /// Collects `data`; all of it is taken.
    pub fn write(&mut self, data: &[u8]) -> (n: usize)
        ensures
            final(self)@ == after_write(old(self)@, data@),
            n == data@.len(),
    {
        let mut i: usize = 0;
        while i < data.len()
            invariant
                i <= data.len(),
                self.buf@ == old(self)@ + data@.take(i as int),
            decreases data.len() - i,
        {
            self.buf.push(data[i]);
            i = i + 1;
            assert(self.buf@ =~= old(self)@ + data@.take(i as int));
        }
        assert(data@.take(i as int) =~= data@);
        data.len()
    }

    /// Hands out everything collected so far, leaving the buffer empty.
    pub fn flush(&mut self) -> (out: Vec<u8>)
        ensures
            out@ == old(self)@,
            final(self)@ == Seq::<u8>::empty(),
    {
        let mut out: Vec<u8> = Vec::new();
        std::mem::swap(&mut out, &mut self.buf);
        out
    }
}

/// What a flush sends is every byte written since the last flush, in the
/// order written: after writing `a` and then `b` into an emptied buffer, a
/// flush hands out `a` followed by `b`.
pub proof fn law_flush_sends_writes(a: Seq<u8>, b: Seq<u8>)
    ensures
        after_write(after_write(Seq::<u8>::empty(), a), b) == a + b,
{
    assert(after_write(after_write(Seq::<u8>::empty(), a), b) =~= a + b);
}

} // verus!
