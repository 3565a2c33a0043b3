use vstd::prelude::*;
use vstd::slice::{slice_subrange, slice_to_vec};

use crate::error::{IoErrorKind, RecvError};

verus! {

// An in-memory byte stream: the decoder's view of one connection's incoming
// bytes. Reading consumes from the front; a read past the end fails like a
// transport whose peer hung up mid-packet, and drains the stream, which is
// the stream's defined failed state.

/// A readable byte stream over a buffer, consumed front to back.
#[derive(Debug)]
pub struct MemStream {
    data: Vec<u8>,
    pos: usize,
}

impl MemStream {
    #[verifier::type_invariant]
    spec fn inv(self) -> bool {
        self.pos <= self.data@.len()
    }

    /// The bytes not yet consumed.
    pub closed spec fn remaining(self) -> Seq<u8> {
        self.data@.skip(self.pos as int)
    }

    /// A stream that will yield exactly the given bytes.
    pub fn new(data: Vec<u8>) -> (s: MemStream)
        ensures
            s.remaining() == data@,
    {
        let s = MemStream { data, pos: 0 };
        proof {
            assert(s.remaining() =~= s.data@);
        }
        s
    }

    /// How many bytes are still unread.
    pub fn remaining_len(&self) -> (n: usize)
        ensures
            n == self.remaining().len(),
    {
        proof {
            use_type_invariant(&*self);
        }
        self.data.len() - self.pos
    }

    /// Consumes exactly `n` bytes and returns them. When fewer remain, the
    /// read fails as a transport would — an unexpected end of stream — and
    /// the stream is left drained.
    pub fn read_exact(&mut self, n: usize) -> (r: Result<Vec<u8>, RecvError>)
        ensures
            n <= old(self).remaining().len() ==> {
                &&& r matches Ok(b) && b@ == old(self).remaining().take(n as int)
                &&& final(self).remaining() == old(self).remaining().skip(n as int)
            },
            n > old(self).remaining().len() ==> {
                &&& r == Err::<Vec<u8>, RecvError>(RecvError::Io(IoErrorKind::UnexpectedEof))
                &&& final(self).remaining() == Seq::<u8>::empty()
            },
    {
        proof {
            use_type_invariant(&*self);
        }
        if n <= self.data.len() - self.pos {
            let bytes = slice_to_vec(slice_subrange(self.data.as_slice(), self.pos, self.pos + n));
            self.pos = self.pos + n;
            proof {
                assert(bytes@ =~= old(self).remaining().take(n as int));
                assert(self.remaining() =~= old(self).remaining().skip(n as int));
            }
            Ok(bytes)
        } else {
            self.pos = self.data.len();
            proof {
                assert(self.remaining() =~= Seq::<u8>::empty());
            }
            Err(RecvError::Io(IoErrorKind::UnexpectedEof))
        }
    }
}

} // verus!
