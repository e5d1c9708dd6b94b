//! Reusable pool of stack and heap buffers.
//!
//! Each invocation checks one stack buffer and one heap buffer out of a
//! shared pool and gives them back when the call ends, so repeated calls do
//! not pay an allocation each. A checked-out buffer is moved out of the
//! pool, so two simultaneous checkouts can never hand out the same buffer;
//! the caller owns it exclusively until it is given back.

use vstd::prelude::*;

verus! {

/// A sequence of `len` zero bytes.
pub open spec fn zero_bytes(len: nat) -> Seq<u8> {
    Seq::new(len, |j: int| 0u8)
}

/// Checkout took the buffer out of the free list: some free buffer of at
/// least `size` bytes became the result, and the list lost exactly it.
pub open spec fn checkout_reused(
    pre: Seq<Seq<u8>>,
    post: Seq<Seq<u8>>,
    buffer: Seq<u8>,
    size: nat,
) -> bool {
    exists|i: int|
        {
            &&& 0 <= i < pre.len()
            &&& pre[i].len() >= size
            &&& buffer == pre[i]
            &&& post == pre.remove(i)
        }
}

/// Checkout allocated afresh: no free buffer was large enough, the free
/// list is unchanged and the result is exactly `size` zero bytes.
pub open spec fn checkout_fresh(
    pre: Seq<Seq<u8>>,
    post: Seq<Seq<u8>>,
    buffer: Seq<u8>,
    size: nat,
) -> bool {
    &&& post == pre
    &&& buffer == zero_bytes(size)
}

/// One checkout step: the handed-out buffer either came out of the free
/// list or was allocated afresh because none fitted.
pub open spec fn checkout_spec(
    pre: Seq<Seq<u8>>,
    post: Seq<Seq<u8>>,
    buffer: Seq<u8>,
    size: nat,
) -> bool {
    checkout_reused(pre, post, buffer, size) || checkout_fresh(pre, post, buffer, size)
}

/// The free list of a buffer pool. Buffers carry no content contract — only
/// their sizes matter — but checkout says exactly where each buffer went.
pub struct BufferPool {
    free: Vec<Vec<u8>>,
}

impl BufferPool {
    /// The free buffers, each as its byte sequence.
    pub closed spec fn buffers(&self) -> Seq<Seq<u8>> {
        self.free@.map_values(|b: Vec<u8>| b@)
    }

    /// An empty pool.
    pub fn new() -> (pool: Self)
        ensures
            pool.buffers() == Seq::<Seq<u8>>::empty(),
    {
        let pool = BufferPool { free: Vec::new() };
        proof {
            assert(pool.buffers() =~= Seq::<Seq<u8>>::empty());
        }
        pool
    }

    /// Checks a buffer of at least `size` bytes out of the pool. A free
    /// buffer that is large enough is moved out of the pool; when none fits,
    /// the pool is left unchanged and a fresh zeroed buffer of exactly
    /// `size` bytes is handed out instead.
    pub fn checkout(&mut self, size: usize) -> (buffer: Vec<u8>)
        ensures
            buffer@.len() >= size,
            checkout_spec(old(self).buffers(), final(self).buffers(), buffer@, size as nat),
    {
        let mut i: usize = 0;
        while i < self.free.len()
            invariant
                i <= self.free.len(),
                self == old(self),
            decreases self.free.len() - i,
        {
            if self.free[i].len() >= size {
                let buffer = self.free.remove(i);
                proof {
                    assert(self.buffers() =~= old(self).buffers().remove(i as int));
                    assert(buffer@ == old(self).buffers()[i as int]);
                }
                return buffer;
            }
            i += 1;
        }
        zeroed_buffer(size)
    }

    /// Gives a buffer back to the pool for later reuse.
    pub fn give_back(&mut self, buffer: Vec<u8>)
        ensures
            final(self).buffers() == old(self).buffers().push(buffer@),
    {
        let ghost b = buffer@;
        self.free.push(buffer);
        proof {
            assert(self.buffers() =~= old(self).buffers().push(b));
        }
    }

    /// Number of free buffers in the pool.
    pub fn len(&self) -> (n: usize)
        ensures
            n == self.buffers().len(),
    {
        self.free.len()
    }
}

/// Allocates a fresh buffer of exactly `len` zero bytes.
pub fn zeroed_buffer(len: usize) -> (buffer: Vec<u8>)
    ensures
        buffer@ == zero_bytes(len as nat),
{
    let mut buffer: Vec<u8> = Vec::new();
    while buffer.len() < len
        invariant
            buffer@.len() <= len,
            buffer@ == zero_bytes(buffer@.len()),
        decreases len - buffer@.len(),
    {
        buffer.push(0u8);
        proof {
            assert(buffer@ =~= zero_bytes(buffer@.len()));
        }
    }
    proof {
        assert(buffer@ =~= zero_bytes(len as nat));
    }
    buffer
}

} // verus!
