//! Single-producer single-consumer ring buffer.
//!
//! A queue of fixed capacity `N`, a power of two, that keeps one slot free:
//! it holds `N - 1` items at most. Items leave in the order in which they
//! came.

use vstd::prelude::*;

verus! {

/// Whether `n` is a power of two that fits in 32 bits.
pub open spec fn valid_capacity(n: usize) -> bool {
    0 < n <= u32::MAX && (n as u32) & ((n - 1) as u32) == 0
}

/// The index `i` places behind `start` in a ring of `n` slots.
pub open spec fn ring_index(start: int, i: int, n: int) -> int {
    if start + i < n {
        start + i
    } else {
        start + i - n
    }
}

/// Number of items between `tail` and `head` in a ring of `n` slots.
pub open spec fn ring_len(head: int, tail: int, n: int) -> int {
    if head >= tail {
        head - tail
    } else {
        head + n - tail
    }
}

/// In a ring whose size is a power of two, masking the wrapped difference
/// of two indices gives the number of items between them, and masking the
/// successor of an index gives the next index.
pub proof fn lemma_ring_mask(head: u32, tail: u32, n: u32, diff: u32)
    by (bit_vector)
    requires
        n > 0,
        n & ((n - 1) as u32) == 0,
        head < n,
        tail < n,
        diff == (if head >= tail {
            (head - tail) as u32
        } else {
            (head + 0x1_0000_0000 - tail) as u32
        }),
    ensures
        diff & ((n - 1) as u32) == (if head >= tail {
            (head - tail) as u32
        } else {
            (head + n - tail) as u32
        }),
        tail & ((n - 1) as u32) == tail,
        head < n - 1 ==> ((head + 1) as u32) & ((n - 1) as u32) == head + 1,
        head == n - 1 ==> ((head + 1) as u32) & ((n - 1) as u32) == 0,
{
}

/// Single-producer single-consumer ring buffer of capacity `N`.
pub struct Spsc<T, const N: usize> {
    /// Ring buffer storage; a slot holds an item while it is queued
    pub buffer: Vec<Option<T>>,
    /// Next write index
    pub head: u32,
    /// Next read index
    pub tail: u32,
}

impl<T, const N: usize> Spsc<T, N> {
    /// Number of queued items.
    pub open spec fn spec_len(self) -> int {
        ring_len(self.head as int, self.tail as int, N as int)
    }

    /// Validity of a queue: the capacity is a power of two, the indices lie
    /// in the ring, and every slot from the read index up to the write index
    /// holds an item.
    pub open spec fn wf(self) -> bool {
        &&& valid_capacity(N)
        &&& self.buffer@.len() == N
        &&& self.head < N
        &&& self.tail < N
        &&& forall|i: int|
            0 <= i < self.spec_len() ==> (#[trigger] self.buffer@[ring_index(
                self.tail as int,
                i,
                N as int,
            )]).is_some()
    }

    /// The queued items, oldest first.
    pub open spec fn view(self) -> Seq<T> {
        Seq::new(
            self.spec_len() as nat,
            |i: int| self.buffer@[ring_index(self.tail as int, i, N as int)].unwrap(),
        )
    }

    /// Create a new empty queue. The capacity must be a power of two.
    pub fn new() -> (q: Spsc<T, N>)
        requires
            valid_capacity(N),
        ensures
            q.wf(),
            q@ == Seq::<T>::empty(),
    {
        let mut buffer: Vec<Option<T>> = Vec::new();
        let mut i: usize = 0;
        while i < N
            invariant
                i <= N,
                buffer@.len() == i,
            decreases N - i,
        {
            buffer.push(None);
            i += 1;
        }
        let q = Spsc { buffer, head: 0, tail: 0 };
        assert(q@ =~= Seq::<T>::empty());
        q
    }

    /// Split queue into producer and consumer handles, through which the
    /// two sides observe the queue.
    pub fn split(&mut self) -> (handles: (Producer<'_, T, N>, Consumer<'_, T, N>))
        ensures
            *final(self) == *old(self),
            *handles.0.queue == *old(self),
            *handles.1.queue == *old(self),
    {
        let this: &Spsc<T, N> = self;
        (Producer { queue: this }, Consumer { queue: this })
    }

    /// Get the number of items in the queue.
    pub fn len(&self) -> (n: usize)
        requires
            self.wf(),
        ensures
            n == self@.len(),
            n <= N - 1,
    {
        let diff: u32 = self.head.wrapping_sub(self.tail);
        proof {
            lemma_ring_mask(self.head, self.tail, N as u32, diff);
        }
        (diff & ((N - 1) as u32)) as usize
    }

    /// Check if the queue is empty.
    pub fn is_empty(&self) -> (empty: bool)
        requires
            self.wf(),
        ensures
            empty == (self@.len() == 0),
    {
        self.head == self.tail
    }

    /// Check if the queue is full: it holds `N - 1` items.
    pub fn is_full(&self) -> (full: bool)
        requires
            self.wf(),
        ensures
            full == (self@.len() == N - 1),
    {
        proof {
            let diff: u32 = if self.head >= self.tail {
                (self.head - self.tail) as u32
            } else {
                (self.head + 0x1_0000_0000 - self.tail) as u32
            };
            lemma_ring_mask(self.head, self.tail, N as u32, diff);
        }
        let mask: u32 = (N - 1) as u32;
        (self.head.wrapping_add(1) & mask) == (self.tail & mask)
    }

    /// Get available space in the queue.
    pub fn available(&self) -> (n: usize)
        requires
            self.wf(),
        ensures
            n == N - 1 - self@.len(),
    {
        N - 1 - self.len()
    }

    /// Get the capacity of the queue. The usable capacity is `N - 1`.
    pub fn capacity(&self) -> (n: usize)
        ensures
            n == N,
    {
        N
    }

    /// Reset queue to empty state.
    pub fn reset(&mut self)
        requires
            old(self).wf(),
        ensures
            final(self).wf(),
            final(self)@ == Seq::<T>::empty(),
    {
        self.head = 0;
        self.tail = 0;
        assert(self@ =~= Seq::<T>::empty());
    }
}

impl<T: Copy, const N: usize> Spsc<T, N> {
    /// Push an item to the queue.
    ///
    /// Returns `Ok(())` on success, with the item behind the others, or
    /// hands the item back in `Err` if the queue is full.
    pub fn push(&mut self, item: T) -> (r: Result<(), T>)
        requires
            old(self).wf(),
        ensures
            final(self).wf(),
            old(self)@.len() == N - 1 ==> r == Err::<(), T>(item) && *final(self) == *old(self),
            old(self)@.len() < N - 1 ==> r.is_ok() && final(self)@ == old(self)@.push(item),
    {
        proof {
            let diff: u32 = if self.head >= self.tail {
                (self.head - self.tail) as u32
            } else {
                (self.head + 0x1_0000_0000 - self.tail) as u32
            };
            lemma_ring_mask(self.head, self.tail, N as u32, diff);
        }
        let head: u32 = self.head;
        let next_head: u32 = head.wrapping_add(1) & ((N - 1) as u32);
        if next_head == self.tail {
            return Err(item);
        }
        self.buffer.set(head as usize, Some(item));
        self.head = next_head;
        assert forall|i: int| 0 <= i < self.spec_len() implies (#[trigger] self.buffer@[ring_index(
            self.tail as int,
            i,
            N as int,
        )]).is_some() by {
            if i < old(self).spec_len() {
                assert(old(self).buffer@[ring_index(old(self).tail as int, i, N as int)].is_some());
            }
        }
        assert(self@ =~= old(self)@.push(item));
        Ok(())
    }

    /// Pop an item from the queue.
    ///
    /// Returns the oldest item if there is one, `None` if the queue is
    /// empty.
    pub fn pop(&mut self) -> (r: Option<T>)
        requires
            old(self).wf(),
        ensures
            final(self).wf(),
            old(self)@.len() == 0 ==> r.is_none() && *final(self) == *old(self),
            old(self)@.len() > 0 ==> r == Some(old(self)@[0]) && final(self)@ == old(self)@.subrange(
                1,
                old(self)@.len() as int,
            ),
    {
        proof {
            lemma_ring_mask(self.tail, self.head, N as u32, if self.tail >= self.head {
                (self.tail - self.head) as u32
            } else {
                (self.tail + 0x1_0000_0000 - self.head) as u32
            });
        }
        let tail: u32 = self.tail;
        if tail == self.head {
            return None;
        }
        assert(self.buffer@[ring_index(tail as int, 0, N as int)].is_some());
        let item: Option<T> = self.buffer[tail as usize];
        let next_tail: u32 = tail.wrapping_add(1) & ((N - 1) as u32);
        self.tail = next_tail;
        assert forall|i: int| 0 <= i < self.spec_len() implies (#[trigger] self.buffer@[ring_index(
            self.tail as int,
            i,
            N as int,
        )]).is_some() by {
            assert(old(self).buffer@[ring_index(old(self).tail as int, i + 1, N as int)].is_some());
        }
        assert(self@ =~= old(self)@.subrange(1, old(self)@.len() as int));
        item
    }

    /// Peek at the next item without removing it.
    pub fn peek(&self) -> (r: Option<&T>)
        requires
            self.wf(),
        ensures
            self@.len() == 0 ==> r.is_none(),
            self@.len() > 0 ==> r == Some(&self@[0]),
    {
        if self.tail == self.head {
            return None;
        }
        assert(self.buffer@[ring_index(self.tail as int, 0, N as int)].is_some());
        self.buffer[self.tail as usize].as_ref()
    }
}

/// Producer handle: the producing side's view of the queue.
pub struct Producer<'a, T, const N: usize> {
    pub queue: &'a Spsc<T, N>,
}

/// Consumer handle: the consuming side's view of the queue.
pub struct Consumer<'a, T, const N: usize> {
    pub queue: &'a Spsc<T, N>,
}

impl<'a, T, const N: usize> Producer<'a, T, N> {
    /// Check if the queue is full.
    pub fn is_full(&self) -> (full: bool)
        requires
            self.queue.wf(),
        ensures
            full == (self.queue@.len() == N - 1),
    {
        self.queue.is_full()
    }

    /// Get available space.
    pub fn available(&self) -> (n: usize)
        requires
            self.queue.wf(),
        ensures
            n == N - 1 - self.queue@.len(),
    {
        self.queue.available()
    }
}

impl<'a, T, const N: usize> Consumer<'a, T, N> {
    /// Check if the queue is empty.
    pub fn is_empty(&self) -> (empty: bool)
        requires
            self.queue.wf(),
        ensures
            empty == (self.queue@.len() == 0),
    {
        self.queue.is_empty()
    }

    /// Get number of items available.
    pub fn len(&self) -> (n: usize)
        requires
            self.queue.wf(),
        ensures
            n == self.queue@.len(),
    {
        self.queue.len()
    }
}

} // verus!
