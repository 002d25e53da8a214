//! Output streams: append-only byte sinks with an error state.
//!
//! A `Stream` stands for a C stream handle (standard output, standard
//! error, or any other sink the caller chooses). A write appends the
//! requested bytes and reports the count written, or reports a negative
//! count and appends nothing once the sink has failed — the exact
//! convention of the C formatted-output routines. Reading the contents
//! back is the independent-reader side of the round trip.

use vstd::prelude::*;
use crate::decimal::{dec_bytes, u32_decimal};

verus! {

/// An append-only byte sink with an error state.
pub struct Stream {
    buf: Vec<u8>,
    ok: bool,
}

impl Stream {
    /// The bytes written to the stream so far, in order.
    pub closed spec fn contents(self) -> Seq<u8> {
        self.buf@
    }

    /// False once the sink has failed: every later write is refused.
    pub closed spec fn is_ok(self) -> bool {
        self.ok
    }

    /// A fresh, working stream with nothing written yet.
    pub fn new() -> (s: Stream)
        ensures
            s.contents() == Seq::<u8>::empty(),
            s.is_ok(),
    {
        Stream { buf: Vec::new(), ok: true }
    }

    /// A stream whose sink has already failed: writes report a negative
    /// count and change nothing. Lets a caller exercise the output-failure
    /// path that the C routines signal the same way.
    pub fn failed() -> (s: Stream)
        ensures
            s.contents() == Seq::<u8>::empty(),
            !s.is_ok(),
    {
        Stream { buf: Vec::new(), ok: false }
    }

    /// Appends `data` to the stream and returns the count of bytes
    /// written; on a failed sink writes nothing and returns a negative
    /// value. The length bound keeps the count representable in the
    /// C-style signed return.
    pub fn write_bytes(&mut self, data: &Vec<u8>) -> (r: i32)
        requires
            data@.len() <= i32::MAX as int,
        ensures
            final(self).is_ok() == old(self).is_ok(),
            old(self).is_ok() ==> final(self).contents() == old(self).contents() + data@,
            old(self).is_ok() ==> r == data@.len(),
            !old(self).is_ok() ==> final(self).contents() == old(self).contents() && r == -1,
    {
        if !self.ok {
            return -1;
        }
        let mut j: usize = 0;
        while j < data.len()
            invariant
                0 <= j <= data@.len(),
                self.ok == old(self).ok,
                self.buf@ == old(self).buf@ + data@.take(j as int),
            decreases data@.len() - j,
        {
            self.buf.push(data[j]);
            proof {
                assert(data@.take(j + 1) =~= data@.take(j as int).push(data@[j as int]));
                assert(self.buf@ =~= old(self).buf@ + data@.take(j + 1));
            }
            j = j + 1;
        }
        proof {
            assert(data@.take(data@.len() as int) =~= data@);
        }
        data.len() as i32
    }

    /// Appends the decimal rendering of `n` and returns the count of
    /// digits written, or a negative value on a failed sink.
    pub fn write_decimal(&mut self, n: u32) -> (r: i32)
        ensures
            final(self).is_ok() == old(self).is_ok(),
            old(self).is_ok() ==> final(self).contents() == old(self).contents() + dec_bytes(
                n as nat,
            ),
            old(self).is_ok() ==> r == dec_bytes(n as nat).len(),
            !old(self).is_ok() ==> final(self).contents() == old(self).contents() && r == -1,
    {
        let d = u32_decimal(n);
        self.write_bytes(&d)
    }

    /// The independent reader: the bytes the stream holds, exactly as
    /// they were written.
    pub fn bytes(&self) -> (r: &Vec<u8>)
        ensures
            r@ == self.contents(),
    {
        &self.buf
    }
}

/// Round trip: what a write appended reads back exactly as requested.
/// After contents `pre` grow by a write of `data`, the bytes past the old
/// length are `data` itself, byte for byte.
pub proof fn lemma_write_read_round_trip(pre: Seq<u8>, data: Seq<u8>, post: Seq<u8>)
    requires
        post == pre + data,
    ensures
        post.len() == pre.len() + data.len(),
        post.subrange(pre.len() as int, post.len() as int) == data,
        post.take(pre.len() as int) == pre,
{
    assert(post.subrange(pre.len() as int, post.len() as int) =~= data);
    assert(post.take(pre.len() as int) =~= pre);
}

} // verus!
