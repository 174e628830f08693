use vstd::prelude::*;
use vstd::utf8::{decode_utf8, valid_utf8};

verus! {

/// What `String::from_utf8_lossy` makes of `bytes`.
pub uninterp spec fn utf8_lossy(bytes: Seq<u8>) -> Seq<char>;

/// Relies on `String::from_utf8_lossy`: the text of `bytes`, with each invalid
/// sequence replaced by U+FFFD; valid UTF-8 comes back as it is.
#[verifier::external_body]
fn decode_lossy(bytes: &Vec<u8>) -> (r: String)
    ensures
        r@ == utf8_lossy(bytes@),
        valid_utf8(bytes@) ==> r@ == decode_utf8(bytes@),
{
    String::from_utf8_lossy(bytes).into_owned()
}

/// A sink that keeps every byte written to it, for log output that is read
/// back later.
pub struct BufferedWriter {
    buffer: Vec<u8>,
}

impl BufferedWriter {
    /// The bytes written so far, in order.
    pub closed spec fn bytes(&self) -> Seq<u8> {
        self.buffer@
    }

    /// An empty sink.
    pub fn new() -> (r: BufferedWriter)
        ensures
            r.bytes() == Seq::<u8>::empty(),
    {
        BufferedWriter { buffer: Vec::new() }
    }

    /// Appends all of `buf` and returns how many bytes were taken.
    pub fn write(&mut self, buf: &[u8]) -> (n: usize)
        ensures
            final(self).bytes() == old(self).bytes() + buf@,
            n == buf@.len(),
    {
        let mut i: usize = 0;
        while i < buf.len()
            invariant
                i <= buf@.len(),
                self.buffer@ == old(self).bytes() + buf@.subrange(0, i as int),
            decreases buf@.len() - i,
        {
            self.buffer.push(buf[i]);
            i = i + 1;
            assert(buf@.subrange(0, i as int) == buf@.subrange(0, i - 1).push(buf@[i - 1]));
        }
        assert(buf@.subrange(0, buf@.len() as int) == buf@);
        buf.len()
    }

    /// What was written so far, decoded as UTF-8 with invalid sequences
    /// replaced by U+FFFD.
    pub fn get_contents(&self) -> (r: String)
        ensures
            r@ == utf8_lossy(self.bytes()),
            valid_utf8(self.bytes()) ==> r@ == decode_utf8(self.bytes()),
    {
        decode_lossy(&self.buffer)
    }
}

} // verus!
