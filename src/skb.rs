//! Packet buffers with head and tail room, and queues of them.
use vstd::prelude::*;

use std::collections::VecDeque;

use crate::bytes::{copy_bytes, zeroed};

verus! {

/// A packet buffer: a storage area whose bytes `[head, head + len)` are the data.
pub struct SkBuff {
    storage: Vec<u8>,
    head: usize,
    len: usize,
}

impl SkBuff {
    /// The data sits inside the storage.
    pub closed spec fn wf(&self) -> bool {
        self.head + self.len <= self.storage@.len() <= usize::MAX
    }

    /// The data bytes.
    pub closed spec fn data_view(&self) -> Seq<u8> {
        self.storage@.subrange(self.head as int, self.head + self.len)
    }

    /// The bytes before the data.
    pub closed spec fn head_view(&self) -> nat {
        self.head as nat
    }

    /// The whole storage area.
    pub closed spec fn store_view(&self) -> Seq<u8> {
        self.storage@
    }

    /// The size of the storage.
    pub closed spec fn cap_view(&self) -> nat {
        self.storage@.len()
    }

    /// A buffer of `capacity` zero bytes with no headroom and no data.
    pub fn allocate(capacity: usize) -> (r: SkBuff)
        ensures
            r.wf(),
            r.cap_view() == capacity,
            r.head_view() == 0,
            r.data_view() == Seq::<u8>::empty(),
    {
        SkBuff::alloc_with_headroom(capacity, 0)
    }

    /// A buffer of `capacity` zero bytes whose data starts empty after `headroom`
    /// bytes (at most `capacity`).
    pub fn alloc_with_headroom(capacity: usize, headroom: usize) -> (r: SkBuff)
        ensures
            r.wf(),
            r.cap_view() == capacity,
            r.head_view() == if headroom < capacity {
                headroom
            } else {
                capacity
            },
            r.data_view() == Seq::<u8>::empty(),
    {
        let head = if headroom < capacity {
            headroom
        } else {
            capacity
        };
        let storage = zeroed(capacity);
        let r = SkBuff { storage, head, len: 0 };
        assert(r.data_view() =~= Seq::<u8>::empty());
        r
    }

    /// A copy of the data.
    pub fn data(&self) -> (r: Vec<u8>)
        requires
            self.wf(),
        ensures
            r@ == self.data_view(),
    {
        crate::bus::slice_of(self.storage.as_slice(), self.head, self.len)
    }

    /// A copy of the first `len` data bytes (all of them when `len` is larger).
    pub fn data_len(&self, len: usize) -> (r: Vec<u8>)
        requires
            self.wf(),
        ensures
            r@ == self.data_view().take(
                if len < self.data_view().len() {
                    len as int
                } else {
                    self.data_view().len() as int
                },
            ),
    {
        let n = if len < self.len {
            len
        } else {
            self.len
        };
        let r = crate::bus::slice_of(self.storage.as_slice(), self.head, n);
        assert(r@ =~= self.data_view().take(n as int));
        r
    }

    /// Sets the data length, capped by the room after the head.
    pub fn set_len(&mut self, len: usize)
        requires
            old(self).wf(),
        ensures
            final(self).wf(),
            final(self).head_view() == old(self).head_view(),
            final(self).cap_view() == old(self).cap_view(),
            final(self).data_view().len() == if len < old(self).cap_view() - old(self).head_view() {
                len as int
            } else {
                old(self).cap_view() - old(self).head_view()
            },
            final(self).data_view() == old(self).store_view().subrange(
                old(self).head_view() as int,
                (old(self).head_view() + final(self).data_view().len()) as int,
            ),
    {
        let max = self.storage.len() - self.head;
        self.len = if len < max {
            len
        } else {
            max
        };
    }

    /// The number of data bytes.
    pub fn len(&self) -> (r: usize)
        requires
            self.wf(),
        ensures
            r == self.data_view().len(),
    {
        self.len
    }

    /// Whether there is no data.
    pub fn is_empty(&self) -> (r: bool)
        requires
            self.wf(),
        ensures
            r == (self.data_view().len() == 0),
    {
        self.len == 0
    }

    /// The room before the data.
    pub fn headroom(&self) -> (r: usize)
        ensures
            r == self.head_view(),
    {
        self.head
    }

    /// The room after the data.
    pub fn tailroom(&self) -> (r: usize)
        requires
            self.wf(),
        ensures
            r == self.cap_view() - self.head_view() - self.data_view().len(),
    {
        self.storage.len() - (self.head + self.len)
    }

    /// Grows the data by `n` bytes at its end and returns where, in the data, the new
    /// bytes start; `None`, with nothing changed, when the tail room is short.
    pub fn put(&mut self, n: usize) -> (r: Option<usize>)
        requires
            old(self).wf(),
        ensures
            final(self).wf(),
            final(self).cap_view() == old(self).cap_view(),
            final(self).head_view() == old(self).head_view(),
            r is None <==> n > old(self).cap_view() - old(self).head_view() - old(self).data_view().len(),
            r is None ==> final(self).data_view() == old(self).data_view(),
            r matches Some(start) ==> start == old(self).data_view().len() && final(self).data_view() == old(self).data_view() + old(self).store_view().subrange(
                (old(self).head_view() + old(self).data_view().len()) as int,
                old(self).head_view() + old(self).data_view().len() + n,
            ),
            r is Some ==> final(self).data_view().len() == old(self).data_view().len() + n,
    {
        if self.storage.len() - (self.head + self.len) < n {
            return None;
        }
        let start = self.len;
        self.len = self.len + n;
        assert(self.data_view() =~= old(self).data_view() + old(self).storage@.subrange(
            old(self).head + old(self).len,
            old(self).head + old(self).len + n,
        ));
        Some(start)
    }

    /// Overwrites data bytes from `off` with `src`.
    pub fn write(&mut self, off: usize, src: &[u8])
        requires
            old(self).wf(),
            off + src@.len() <= old(self).data_view().len(),
        ensures
            final(self).wf(),
            final(self).cap_view() == old(self).cap_view(),
            final(self).head_view() == old(self).head_view(),
            final(self).data_view() == old(self).data_view().subrange(0, off as int) + src@
                + old(self).data_view().subrange(off + src@.len(), old(self).data_view().len() as int),
    {
        copy_bytes(&mut self.storage, self.head + off, src, 0, src.len());
        assert(self.data_view() =~= old(self).data_view().subrange(0, off as int) + src@ + old(self).data_view().subrange(off + src@.len(), old(self).data_view().len() as int));
    }

    /// Drops up to `n` bytes from the front of the data into the headroom.
    pub fn pull(&mut self, n: usize)
        requires
            old(self).wf(),
        ensures
            final(self).wf(),
            final(self).cap_view() == old(self).cap_view(),
            ({
                let c = if n < old(self).data_view().len() {
                    n as int
                } else {
                    old(self).data_view().len() as int
                };
                &&& final(self).head_view() == old(self).head_view() + c
                &&& final(self).data_view() == old(self).data_view().subrange(
                    c,
                    old(self).data_view().len() as int,
                )
            }),
    {
        let consume = if n < self.len {
            n
        } else {
            self.len
        };
        self.head = self.head + consume;
        self.len = self.len - consume;
        assert(self.data_view() =~= old(self).data_view().subrange(
            consume as int,
            old(self).data_view().len() as int,
        ));
    }

    /// Grows the data by `n` bytes at its front, taken from the headroom; `false`, with
    /// nothing changed, when the headroom is short.
    pub fn push(&mut self, n: usize) -> (r: bool)
        requires
            old(self).wf(),
        ensures
            final(self).wf(),
            final(self).cap_view() == old(self).cap_view(),
            r == (n <= old(self).head_view()),
            !r ==> final(self).data_view() == old(self).data_view() && final(self).head_view()
                == old(self).head_view(),
            r ==> final(self).head_view() == old(self).head_view() - n && final(self).data_view()
                == old(self).store_view().subrange(old(self).head_view() - n, old(self).head_view() as int) + old(self).data_view(),
    {
        if self.head < n {
            return false;
        }
        self.head = self.head - n;
        self.len = self.len + n;
        assert(self.data_view() =~= old(self).storage@.subrange(
            old(self).head - n,
            old(self).head as int,
        ) + old(self).data_view());
        true
    }

    /// Makes sure at least `n` bytes of headroom exist, growing the storage at its
    /// front with zeros when needed. The data is unchanged.
    pub fn reserve(&mut self, n: usize)
        requires
            old(self).wf(),
            old(self).cap_view() + n <= usize::MAX,
        ensures
            final(self).wf(),
            final(self).data_view() == old(self).data_view(),
            final(self).head_view() == if n <= old(self).head_view() {
                old(self).head_view()
            } else {
                n as nat
            },
    {
        if n <= self.head {
            return;
        }
        let need = n - self.head;
        let mut new_storage = zeroed(need);
        let mut i: usize = 0;
        while i < self.storage.len()
            invariant
                new_storage@.len() == need + i,
                i <= self.storage@.len(),
                self.storage@ == old(self).storage@,
                new_storage@ == Seq::new(need as nat, |k: int| 0u8) + self.storage@.take(i as int),
            decreases self.storage@.len() - i,
        {
            new_storage.push(self.storage[i]);
            i = i + 1;
            assert(new_storage@ =~= Seq::new(need as nat, |k: int| 0u8) + self.storage@.take(
                i as int,
            ));
        }
        assert(self.storage@.take(i as int) =~= self.storage@);
        self.storage = new_storage;
        self.head = self.head + need;
        assert(self.data_view() =~= old(self).data_view());
    }

    /// Copies up to `n` data bytes from `off` to the front of `dst` and returns how
    /// many were copied: as many as remain after `off`, fit in `dst`, and `n` allows.
    pub fn copy_bits(&self, dst: &mut Vec<u8>, off: usize, n: usize) -> (r: usize)
        requires
            self.wf(),
        ensures
            ({
                let d = self.data_view();
                let start = if off < d.len() {
                    off as int
                } else {
                    d.len() as int
                };
                let m1 = if d.len() - start < n {
                    d.len() - start
                } else {
                    n as int
                };
                let m = if m1 < old(dst)@.len() {
                    m1
                } else {
                    old(dst)@.len() as int
                };
                &&& r == m
                &&& final(dst)@ == d.subrange(start, start + m) + old(dst)@.subrange(
                    m,
                    old(dst)@.len() as int,
                )
            }),
    {
        let start = if off < self.len {
            off
        } else {
            self.len
        };
        let mut count = self.len - start;
        if n < count {
            count = n;
        }
        if dst.len() < count {
            count = dst.len();
        }
        copy_bytes(dst, 0, self.storage.as_slice(), self.head + start, count);
        assert(final_dst_eq(dst@, old(dst)@, self.storage@, (self.head + start) as int, count as int));
        count
    }
}

spec fn final_dst_eq(now: Seq<u8>, before: Seq<u8>, st: Seq<u8>, s: int, m: int) -> bool {
    now =~= st.subrange(s, s + m) + before.subrange(m, before.len() as int)
}

/// A FIFO queue of packet buffers.
pub struct SkbQueue {
    queue: VecDeque<SkBuff>,
}

impl View for SkbQueue {
    type V = Seq<SkBuff>;

    closed spec fn view(&self) -> Seq<SkBuff> {
        self.queue@
    }
}

impl SkbQueue {
    /// An empty queue.
    pub fn new() -> (r: SkbQueue)
        ensures
            r@ == Seq::<SkBuff>::empty(),
    {
        SkbQueue { queue: VecDeque::new() }
    }

    /// Appends a buffer at the tail.
    pub fn push_tail(&mut self, skb: SkBuff)
        ensures
            final(self)@ == old(self)@.push(skb),
    {
        self.queue.push_back(skb);
    }

    /// Removes the buffer at the head, if any.
    pub fn pop_head(&mut self) -> (r: Option<SkBuff>)
        ensures
            old(self)@.len() == 0 ==> r is None && final(self)@ == old(self)@,
            old(self)@.len() > 0 ==> r == Some(old(self)@[0]) && final(self)@ == old(self)@.drop_first(),
    {
        self.queue.pop_front()
    }

    /// Removes the buffer at the tail, if any.
    pub fn pop_tail(&mut self) -> (r: Option<SkBuff>)
        ensures
            old(self)@.len() == 0 ==> r is None && final(self)@ == old(self)@,
            old(self)@.len() > 0 ==> r == Some(old(self)@.last()) && final(self)@ == old(self)@.drop_last(),
    {
        self.queue.pop_back()
    }

    /// Whether the queue is empty.
    pub fn is_empty(&self) -> (r: bool)
        ensures
            r == (self@.len() == 0),
    {
        self.queue.len() == 0
    }

    /// The number of queued buffers.
    pub fn len(&self) -> (r: usize)
        ensures
            r == self@.len(),
    {
        self.queue.len()
    }

    /// Drops every queued buffer.
    pub fn clear(&mut self)
        ensures
            final(self)@ == Seq::<SkBuff>::empty(),
    {
        self.queue.clear();
    }
}

/// Most priority levels of a frame queue.
pub const FRAME_QUEUE_MAX_PRIO: usize = 8;

/// Queues of buffers by priority, 0 the highest, with a hint of the highest
/// priority that may hold a buffer.
pub struct FrameQueue {
    num_prio: usize,
    hi_prio: u16,
    queues: Vec<SkbQueue>,
}

impl FrameQueue {
    /// The number of priority levels is 1..8 wide and each has a queue.
    pub closed spec fn wf(&self) -> bool {
        &&& self.queues@.len() == FRAME_QUEUE_MAX_PRIO
        &&& self.num_prio <= FRAME_QUEUE_MAX_PRIO
    }

    /// The queue of each priority level.
    pub closed spec fn levels(&self) -> Seq<Seq<SkBuff>> {
        self.queues@.take(self.num_prio as int).map_values(|q: SkbQueue| q@)
    }

    /// The level from which `dequeue` starts looking.
    pub closed spec fn hint(&self) -> int {
        self.hi_prio as int
    }

    /// Queues with `num_prio` levels (at most 8), all empty.
    pub fn new(num_prio: usize) -> (r: FrameQueue)
        ensures
            r.wf(),
            r.levels().len() == if num_prio < FRAME_QUEUE_MAX_PRIO {
                num_prio
            } else {
                FRAME_QUEUE_MAX_PRIO
            },
            forall|i: int| 0 <= i < r.levels().len() ==> r.levels()[i].len() == 0,
            r.hint() == 0,
    {
        let n = if num_prio < FRAME_QUEUE_MAX_PRIO {
            num_prio
        } else {
            FRAME_QUEUE_MAX_PRIO
        };
        let mut queues: Vec<SkbQueue> = Vec::new();
        let mut i: usize = 0;
        while i < FRAME_QUEUE_MAX_PRIO
            invariant
                i <= FRAME_QUEUE_MAX_PRIO,
                queues@.len() == i,
                forall|k: int| 0 <= k < i ==> queues@[k]@.len() == 0,
            decreases FRAME_QUEUE_MAX_PRIO - i,
        {
            queues.push(SkbQueue::new());
            i = i + 1;
        }
        FrameQueue { num_prio: n, hi_prio: 0, queues }
    }

    /// Appends `skb` at level `prio` (the lowest level when `prio` is beyond it) and
    /// lowers the hint to that level when the hint is 0 or above it.
    pub fn enqueue(&mut self, skb: SkBuff, prio: usize)
        requires
            old(self).wf(),
            old(self).levels().len() > 0,
        ensures
            final(self).wf(),
            ({
                let last = old(self).levels().len() - 1;
                let p = if prio < last {
                    prio as int
                } else {
                    last
                };
                &&& final(self).levels() == old(self).levels().update(
                    p,
                    old(self).levels()[p].push(skb),
                )
                &&& final(self).hint() == if old(self).hint() == 0 || p < old(self).hint() {
                    p
                } else {
                    old(self).hint()
                }
            }),
    {
        let last = self.num_prio - 1;
        let p = if prio < last {
            prio
        } else {
            last
        };
        if self.hi_prio == 0 || (p as u16) < self.hi_prio {
            self.hi_prio = p as u16;
        }
        let mut q = self.queues.remove(p);
        q.push_tail(skb);
        self.queues.insert(p, q);
        assert(self.levels() =~= old(self).levels().update(p as int, old(self).levels()[p as int].push(skb)));
    }

    /// The first non-empty level at or after `from`, if any.
    pub open spec fn first_nonempty(levels: Seq<Seq<SkBuff>>, from: int) -> Option<int>
        decreases levels.len() - from,
    {
        if from < 0 || from >= levels.len() {
            None
        } else if levels[from].len() > 0 {
            Some(from)
        } else {
            Self::first_nonempty(levels, from + 1)
        }
    }

    /// Takes the head of the first non-empty level from the hint on, and leaves the
    /// hint at that level. When every level from the hint on is empty, returns `None`
    /// and resets the hint to 0.
    pub fn dequeue(&mut self) -> (r: Option<SkBuff>)
        requires
            old(self).wf(),
        ensures
            final(self).wf(),
            match Self::first_nonempty(old(self).levels(), old(self).hint()) {
                Some(p) => {
                    &&& r == Some(old(self).levels()[p][0])
                    &&& final(self).levels() == old(self).levels().update(p, old(self).levels()[p].drop_first())
                    &&& final(self).hint() == p
                },
                None => {
                    &&& r is None
                    &&& final(self).levels() == old(self).levels()
                    &&& final(self).hint() == 0
                },
            },
    {
        while (self.hi_prio as usize) < self.num_prio
            invariant
                self.wf(),
                self.num_prio == old(self).num_prio,
                self.queues@ == old(self).queues@,
                old(self).hint() <= self.hint(),
                Self::first_nonempty(old(self).levels(), old(self).hint()) == Self::first_nonempty(
                    self.levels(),
                    self.hint(),
                ),
            decreases self.num_prio - self.hi_prio,
        {
            let p = self.hi_prio as usize;
            if !self.queues[p].is_empty() {
                let mut q = self.queues.remove(p);
                let r = q.pop_head();
                self.queues.insert(p, q);
                assert(self.levels() =~= old(self).levels().update(p as int, old(self).levels()[p as int].drop_first()));
                return r;
            }
            self.hi_prio = self.hi_prio + 1;
        }
        self.hi_prio = 0;
        assert(self.levels() =~= old(self).levels());
        None
    }

    /// Whether every level is empty.
    pub fn is_empty(&self) -> (r: bool)
        requires
            self.wf(),
        ensures
            r == forall|i: int| 0 <= i < self.levels().len() ==> self.levels()[i].len() == 0,
    {
        let mut i: usize = 0;
        while i < self.num_prio
            invariant
                self.wf(),
                i <= self.num_prio,
                forall|k: int| 0 <= k < i ==> self.levels()[k].len() == 0,
            decreases self.num_prio - i,
        {
            if !self.queues[i].is_empty() {
                assert(self.levels()[i as int].len() != 0);
                return false;
            }
            i = i + 1;
        }
        true
    }
}

impl Default for SkbQueue {
    fn default() -> (r: SkbQueue)
        ensures
            r@ == Seq::<SkBuff>::empty(),
    {
        SkbQueue::new()
    }
}

} // verus!
