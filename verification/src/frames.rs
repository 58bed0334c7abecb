//! The transport's buffer pool as this library keeps book of it, and the
//! consumer that takes one frame per callback.
//!
//! A buffer is never owned by the consumer. The pool lends it for the length
//! of one callback and has it back before the callback returns.

use vstd::prelude::*;
use crate::format::NegotiatedFormat;

verus! {

/// The state of one buffer of the pool.
#[derive(Clone, Copy, Debug, PartialEq, Eq, Structural)]
pub enum Slot {
    /// With the pool, waiting for the source to fill it.
    Empty,
    /// Filled with a frame of this many bytes, waiting to be consumed.
    Ready(u32),
    /// Lent to a consumer.
    Lent,
}

/// How many slots are lent.
pub open spec fn count_lent(slots: Seq<Slot>) -> nat
    decreases slots.len(),
{
    if slots.len() == 0 {
        0
    } else {
        let last: nat = if slots.last() is Lent {
            1
        } else {
            0
        };
        count_lent(slots.drop_last()) + last
    }
}

/// A pool, mathematically: the state of every slot, and the filled slots in
/// the order in which they were filled.
pub struct PoolModel {
    pub slots: Seq<Slot>,
    pub queue: Seq<usize>,
}

impl PoolModel {
    /// The queue holds exactly the filled slots, each once.
    pub open spec fn valid(self) -> bool {
        &&& forall|k: int|
            0 <= k < self.queue.len() ==> (#[trigger] self.queue[k]) < self.slots.len()
                && self.slots[self.queue[k] as int] is Ready
        &&& forall|j: int, k: int|
            0 <= j < k < self.queue.len() ==> self.queue[j] != self.queue[k]
        &&& forall|i: usize|
            i < self.slots.len() && (#[trigger] self.slots[i as int]) is Ready
                ==> self.queue.contains(i)
    }

    /// How many buffers are lent out.
    pub open spec fn lent(self) -> nat {
        count_lent(self.slots)
    }

    /// How many buffers the pool has with it: all but the lent ones.
    pub open spec fn size(self) -> int {
        self.slots.len() - self.lent()
    }

    /// A pool of `capacity` empty buffers.
    pub open spec fn fresh(capacity: nat) -> PoolModel {
        PoolModel { slots: Seq::new(capacity, |i: int| Slot::Empty), queue: Seq::empty() }
    }

    /// Whether slot `index` can take a new frame.
    pub open spec fn can_fill(self, index: usize) -> bool {
        index < self.slots.len() && self.slots[index as int] is Empty
    }

    pub open spec fn after_fill(self, index: usize, len: u32) -> PoolModel {
        if self.can_fill(index) {
            PoolModel {
                slots: self.slots.update(index as int, Slot::Ready(len)),
                queue: self.queue.push(index),
            }
        } else {
            self
        }
    }

    /// The frame that the next dequeue lends: the one that was filled first.
    pub open spec fn front(self) -> Option<FrameModel> {
        if self.queue.len() == 0 {
            None
        } else {
            Some(
                FrameModel {
                    index: self.queue[0],
                    len: self.slots[self.queue[0] as int]->Ready_0,
                },
            )
        }
    }

    pub open spec fn after_dequeue(self) -> PoolModel {
        if self.queue.len() == 0 {
            self
        } else {
            PoolModel {
                slots: self.slots.update(self.queue[0] as int, Slot::Lent),
                queue: self.queue.drop_first(),
            }
        }
    }

    /// Whether `frame` is a buffer that this pool has lent.
    pub open spec fn has_lent(self, frame: FrameModel) -> bool {
        frame.index < self.slots.len() && self.slots[frame.index as int] is Lent
    }

    pub open spec fn after_release(self, frame: FrameModel) -> PoolModel {
        if self.has_lent(frame) {
            PoolModel { slots: self.slots.update(frame.index as int, Slot::Empty), ..self }
        } else {
            self
        }
    }

    /// The pool after one callback of a consumer: the first filled buffer, if
    /// there is one, has been lent, consumed, and taken back empty.
    pub open spec fn after_consume(self) -> PoolModel {
        match self.front() {
            None => self,
            Some(frame) => self.after_dequeue().after_release(frame),
        }
    }
}

/// A lent buffer, mathematically: its slot and the length of its frame.
pub struct FrameModel {
    pub index: usize,
    pub len: u32,
}

/// Changing one slot changes the number of lent slots by what that slot
/// contributes.
pub proof fn count_lent_update(slots: Seq<Slot>, index: int, slot: Slot)
    requires
        0 <= index < slots.len(),
    ensures
        count_lent(slots.update(index, slot)) + (if slots[index] is Lent {
            1nat
        } else {
            0nat
        }) == count_lent(slots) + (if slot is Lent {
            1nat
        } else {
            0nat
        }),
    decreases slots.len(),
{
    let updated = slots.update(index, slot);
    if index == slots.len() - 1 {
        assert(updated.drop_last() =~= slots.drop_last());
    } else {
        assert(updated.drop_last() =~= slots.drop_last().update(index, slot));
        count_lent_update(slots.drop_last(), index, slot);
    }
}

/// Never more slots are lent than there are.
pub proof fn count_lent_bounded(slots: Seq<Slot>)
    ensures
        count_lent(slots) <= slots.len(),
    decreases slots.len(),
{
    if slots.len() > 0 {
        count_lent_bounded(slots.drop_last());
    }
}

/// Filling a slot keeps the pool valid and lends nothing.
pub proof fn fill_keeps_pool_valid(pool: PoolModel, index: usize, len: u32)
    requires
        pool.valid(),
    ensures
        pool.after_fill(index, len).valid(),
        pool.after_fill(index, len).lent() == pool.lent(),
{
    if pool.can_fill(index) {
        let after = pool.after_fill(index, len);
        count_lent_update(pool.slots, index as int, Slot::Ready(len));
        assert forall|i: usize|
            i < after.slots.len() && (#[trigger] after.slots[i as int]) is Ready
                implies after.queue.contains(i) by {
            if i == index {
                assert(after.queue[after.queue.len() - 1] == index);
            } else {
                assert(pool.slots[i as int] is Ready);
                let k = choose|k: int| 0 <= k < pool.queue.len() && pool.queue[k] == i;
                assert(after.queue[k] == i);
            }
        }
    }
}

/// Dequeuing keeps the pool valid and lends the front buffer, if there is
/// one.
pub proof fn dequeue_keeps_pool_valid(pool: PoolModel)
    requires
        pool.valid(),
    ensures
        pool.after_dequeue().valid(),
        pool.front() is None ==> pool.after_dequeue() == pool,
        pool.front() matches Some(frame) ==> pool.after_dequeue().has_lent(frame)
            && pool.after_dequeue().lent() == pool.lent() + 1 && pool.slots[frame.index as int]
            == Slot::Ready(frame.len),
{
    if pool.queue.len() > 0 {
        let after = pool.after_dequeue();
        let index = pool.queue[0];
        count_lent_update(pool.slots, index as int, Slot::Lent);
        assert forall|k: int| 0 <= k < after.queue.len() implies (#[trigger] after.queue[k])
            < after.slots.len() && after.slots[after.queue[k] as int] is Ready by {
            assert(after.queue[k] == pool.queue[k + 1]);
        }
        assert forall|j: int, k: int| 0 <= j < k < after.queue.len() implies after.queue[j]
            != after.queue[k] by {
            assert(after.queue[j] == pool.queue[j + 1]);
            assert(after.queue[k] == pool.queue[k + 1]);
        }
        assert forall|i: usize|
            i < after.slots.len() && (#[trigger] after.slots[i as int]) is Ready
                implies after.queue.contains(i) by {
            assert(pool.slots[i as int] is Ready);
            let k = choose|k: int| 0 <= k < pool.queue.len() && pool.queue[k] == i;
            assert(k != 0);
            assert(after.queue[k - 1] == i);
        }
    }
}

/// Taking a lent buffer back keeps the pool valid and leaves one buffer
/// fewer lent; anything else changes nothing.
pub proof fn release_keeps_pool_valid(pool: PoolModel, frame: FrameModel)
    requires
        pool.valid(),
    ensures
        pool.after_release(frame).valid(),
        pool.has_lent(frame) ==> pool.after_release(frame).lent() + 1 == pool.lent(),
        !pool.has_lent(frame) ==> pool.after_release(frame) == pool,
{
    if pool.has_lent(frame) {
        let after = pool.after_release(frame);
        count_lent_update(pool.slots, frame.index as int, Slot::Empty);
        assert forall|i: usize|
            i < after.slots.len() && (#[trigger] after.slots[i as int]) is Ready
                implies after.queue.contains(i) by {
            assert(pool.slots[i as int] is Ready);
        }
    }
}

/// One callback of a consumer leaves the pool with as many buffers as it had:
/// what was lent is back. The buffer that was consumed is empty again, and
/// the frames behind it have moved up.
pub proof fn consume_returns_every_buffer(pool: PoolModel)
    requires
        pool.valid(),
    ensures
        pool.after_consume().valid(),
        pool.after_consume().lent() == pool.lent(),
        pool.after_consume().size() == pool.size(),
        pool.after_consume().slots.len() == pool.slots.len(),
        pool.front() is None ==> pool.after_consume() == pool,
        pool.front() matches Some(frame) ==> pool.after_consume().slots == pool.slots.update(
            frame.index as int,
            Slot::Empty,
        ) && pool.after_consume().queue == pool.queue.drop_first(),
{
    dequeue_keeps_pool_valid(pool);
    if let Some(frame) = pool.front() {
        release_keeps_pool_valid(pool.after_dequeue(), frame);
        assert(pool.after_consume().slots =~= pool.slots.update(frame.index as int, Slot::Empty));
    }
}

/// A buffer on loan: the token that a consumer holds between dequeue and
/// release. It cannot be copied, and only a pool makes one.
#[derive(Debug)]
pub struct FrameBuffer {
    index: usize,
    len: u32,
}

impl View for FrameBuffer {
    type V = FrameModel;

    closed spec fn view(&self) -> FrameModel {
        FrameModel { index: self.index, len: self.len }
    }
}

impl FrameBuffer {
    /// The slot of the pool that this buffer is.
    pub fn index(&self) -> (r: usize)
        ensures
            r == self@.index,
    {
        self.index
    }

    /// The length of the frame in bytes.
    pub fn len(&self) -> (r: u32)
        ensures
            r == self@.len,
    {
        self.len
    }
}

/// The book that is kept of a transport's buffers.
#[derive(Debug)]
pub struct BufferPool {
    slots: Vec<Slot>,
    queue: Vec<usize>,
}

impl View for BufferPool {
    type V = PoolModel;

    closed spec fn view(&self) -> PoolModel {
        PoolModel { slots: self.slots@, queue: self.queue@ }
    }
}

/// `BufferPool::fill` on the parts of a pool.
fn fill_parts(slots: &mut Vec<Slot>, queue: &mut Vec<usize>, index: usize, len: u32) -> (r: bool)
    requires
        (PoolModel { slots: old(slots)@, queue: old(queue)@ }).valid(),
    ensures
        r == (PoolModel { slots: old(slots)@, queue: old(queue)@ }).can_fill(index),
        (PoolModel { slots: final(slots)@, queue: final(queue)@ }) == (PoolModel {
            slots: old(slots)@,
            queue: old(queue)@,
        }).after_fill(index, len),
        (PoolModel { slots: final(slots)@, queue: final(queue)@ }).valid(),
{
    proof {
        fill_keeps_pool_valid(PoolModel { slots: slots@, queue: queue@ }, index, len);
    }
    if index >= slots.len() {
        return false;
    }
    match slots[index] {
        Slot::Empty => {
            slots.set(index, Slot::Ready(len));
            queue.push(index);
            true
        },
        _ => false,
    }
}

/// `BufferPool::dequeue` on the parts of a pool.
fn dequeue_parts(slots: &mut Vec<Slot>, queue: &mut Vec<usize>) -> (r: Option<FrameBuffer>)
    requires
        (PoolModel { slots: old(slots)@, queue: old(queue)@ }).valid(),
    ensures
        match (PoolModel { slots: old(slots)@, queue: old(queue)@ }).front() {
            None => r is None,
            Some(frame) => r matches Some(buffer) && buffer@ == frame,
        },
        (PoolModel { slots: final(slots)@, queue: final(queue)@ }) == (PoolModel {
            slots: old(slots)@,
            queue: old(queue)@,
        }).after_dequeue(),
        (PoolModel { slots: final(slots)@, queue: final(queue)@ }).valid(),
{
    proof {
        dequeue_keeps_pool_valid(PoolModel { slots: slots@, queue: queue@ });
    }
    if queue.len() == 0 {
        return None;
    }
    let ghost before = queue@;
    let index: usize = queue.remove(0);
    assert(queue@ =~= before.drop_first());
    assert(before[0] == index);
    match slots[index] {
        Slot::Ready(len) => {
            slots.set(index, Slot::Lent);
            Some(FrameBuffer { index, len })
        },
        _ => {
            // The queue holds filled slots only.
            proof {
                assert(false);
            }
            None
        },
    }
}

/// `BufferPool::release` on the slots of a pool.
fn release_parts(slots: &mut Vec<Slot>, buffer: FrameBuffer) -> (r: bool)
    ensures
        r == (old(slots)@.len() > buffer@.index && old(slots)@[buffer@.index as int] is Lent),
        r ==> final(slots)@ == old(slots)@.update(buffer@.index as int, Slot::Empty),
        !r ==> final(slots)@ == old(slots)@,
{
    if buffer.index >= slots.len() {
        return false;
    }
    match slots[buffer.index] {
        Slot::Lent => {
            slots.set(buffer.index, Slot::Empty);
            true
        },
        _ => false,
    }
}

impl BufferPool {
    #[verifier::type_invariant]
    spec fn holds_valid_pool(self) -> bool {
        self@.valid()
    }

    /// A pool of `capacity` buffers, all empty.
    pub fn new(capacity: usize) -> (r: BufferPool)
        ensures
            r@ == PoolModel::fresh(capacity as nat),
            r@.valid(),
    {
        let mut slots: Vec<Slot> = Vec::new();
        let mut i: usize = 0;
        while i < capacity
            invariant
                i <= capacity,
                slots@.len() == i,
                forall|j: int| 0 <= j < i ==> slots@[j] == Slot::Empty,
            decreases capacity - i,
        {
            slots.push(Slot::Empty);
            i += 1;
        }
        let queue: Vec<usize> = Vec::new();
        assert(slots@ =~= PoolModel::fresh(capacity as nat).slots);
        assert(queue@ =~= PoolModel::fresh(capacity as nat).queue);
        BufferPool { slots, queue }
    }

    /// Moves the parts out, leaving a pool of no buffers behind until the
    /// parts are put back.
    fn take_parts(&mut self) -> (parts: (Vec<Slot>, Vec<usize>))
        ensures
            parts.0@ == old(self)@.slots,
            parts.1@ == old(self)@.queue,
            old(self)@.valid(),
    {
        proof {
            use_type_invariant(&*self);
        }
        let mut taken = BufferPool { slots: Vec::new(), queue: Vec::new() };
        std::mem::swap(self, &mut taken);
        let BufferPool { slots, queue } = taken;
        (slots, queue)
    }

    /// The source has filled slot `index` with a frame of `len` bytes.
    /// Returns whether the slot could take it: it is a slot of the pool and
    /// was empty.
    pub fn fill(&mut self, index: usize, len: u32) -> (r: bool)
        ensures
            r == old(self)@.can_fill(index),
            final(self)@ == old(self)@.after_fill(index, len),
            final(self)@.valid(),
    {
        let (mut slots, mut queue) = self.take_parts();
        let r = fill_parts(&mut slots, &mut queue, index, len);
        *self = BufferPool { slots, queue };
        r
    }

    /// Lends the buffer that was filled first, or `None` when no buffer is
    /// filled.
    pub fn dequeue(&mut self) -> (r: Option<FrameBuffer>)
        ensures
            match old(self)@.front() {
                None => r is None,
                Some(frame) => r matches Some(buffer) && buffer@ == frame,
            },
            final(self)@ == old(self)@.after_dequeue(),
            final(self)@.valid(),
    {
        let (mut slots, mut queue) = self.take_parts();
        let r = dequeue_parts(&mut slots, &mut queue);
        *self = BufferPool { slots, queue };
        r
    }

    /// Takes a lent buffer back; it is empty again. Returns whether the
    /// buffer was one that this pool had lent.
    pub fn release(&mut self, buffer: FrameBuffer) -> (r: bool)
        ensures
            r == old(self)@.has_lent(buffer@),
            final(self)@ == old(self)@.after_release(buffer@),
            final(self)@.valid(),
    {
        let ghost frame = buffer@;
        let (mut slots, queue) = self.take_parts();
        proof {
            release_keeps_pool_valid(PoolModel { slots: slots@, queue: queue@ }, frame);
        }
        let r = release_parts(&mut slots, buffer);
        *self = BufferPool { slots, queue };
        r
    }

    /// How many buffers the pool was made with.
    pub fn capacity(&self) -> (r: usize)
        ensures
            r == self@.slots.len(),
    {
        self.slots.len()
    }

    /// How many filled buffers wait to be consumed.
    pub fn ready(&self) -> (r: usize)
        ensures
            r == self@.queue.len(),
    {
        self.queue.len()
    }

    /// How many buffers are lent out.
    pub fn lent(&self) -> (r: usize)
        ensures
            r == self@.lent(),
    {
        let mut count: usize = 0;
        let mut i: usize = 0;
        while i < self.slots.len()
            invariant
                i <= self.slots.len(),
                count == count_lent(self.slots@.take(i as int)),
                count <= i,
            decreases self.slots.len() - i,
        {
            proof {
                assert(self.slots@.take(i + 1).drop_last() =~= self.slots@.take(i as int));
            }
            match self.slots[i] {
                Slot::Lent => {
                    count += 1;
                },
                _ => {},
            }
            i += 1;
        }
        assert(self.slots@.take(i as int) =~= self.slots@);
        count
    }

    /// How many buffers the pool has with it.
    pub fn size(&self) -> (r: usize)
        ensures
            r == self@.size(),
    {
        proof {
            count_lent_bounded(self@.slots);
        }
        self.slots.len() - self.lent()
    }

    /// The state of slot `index`, or `None` when the pool has no such slot.
    pub fn slot(&self, index: usize) -> (r: Option<Slot>)
        ensures
            r == (if index < self@.slots.len() {
                Some(self@.slots[index as int])
            } else {
                None
            }),
    {
        if index < self.slots.len() {
            Some(self.slots[index])
        } else {
            None
        }
    }
}

/// `count + by`, or the largest count when the sum would pass it.
pub open spec fn capped_sum(count: u64, by: u64) -> u64 {
    if count + by > u64::MAX {
        u64::MAX
    } else {
        (count + by) as u64
    }
}

/// What a consumer has seen, mathematically.
pub struct ConsumerModel {
    /// The format in which every frame is to be read.
    pub format: NegotiatedFormat,
    /// Frames consumed.
    pub frames: u64,
    /// Bytes consumed, over all frames.
    pub bytes: u64,
    /// Callbacks that found no filled buffer.
    pub starved: u64,
}

impl ConsumerModel {
    pub open spec fn fresh(format: NegotiatedFormat) -> ConsumerModel {
        ConsumerModel { format, frames: 0, bytes: 0, starved: 0 }
    }

    /// The consumer after a callback that found `front` at the head of the
    /// pool: a frame is counted with its bytes, a missing frame as one
    /// starved callback. Counts stop at the largest count.
    pub open spec fn after(self, front: Option<FrameModel>) -> ConsumerModel {
        match front {
            None => ConsumerModel { starved: capped_sum(self.starved, 1), ..self },
            Some(frame) => ConsumerModel {
                frames: capped_sum(self.frames, 1),
                bytes: capped_sum(self.bytes, frame.len as u64),
                ..self
            },
        }
    }
}

/// The consumer of a negotiated stream. It can only be made from a
/// negotiated format, so no frame is consumed before a negotiation has
/// completed.
#[derive(Debug)]
pub struct FrameConsumer {
    format: NegotiatedFormat,
    frames: u64,
    bytes: u64,
    starved: u64,
}

impl View for FrameConsumer {
    type V = ConsumerModel;

    closed spec fn view(&self) -> ConsumerModel {
        ConsumerModel {
            format: self.format,
            frames: self.frames,
            bytes: self.bytes,
            starved: self.starved,
        }
    }
}

impl FrameConsumer {
    pub fn new(format: NegotiatedFormat) -> (r: FrameConsumer)
        ensures
            r@ == ConsumerModel::fresh(format),
    {
        FrameConsumer { format, frames: 0, bytes: 0, starved: 0 }
    }

    /// The callback for one available buffer. It takes the first filled
    /// buffer of the pool, counts it, and gives it back; when no buffer is
    /// filled it counts a starved callback and touches nothing. Either way
    /// the pool has as many buffers afterwards as before.
    pub fn on_buffer(&mut self, pool: &mut BufferPool)
        ensures
            final(self)@ == old(self)@.after(old(pool)@.front()),
            final(pool)@ == old(pool)@.after_consume(),
            final(pool)@.size() == old(pool)@.size(),
            final(pool)@.lent() == old(pool)@.lent(),
    {
        proof {
            use_type_invariant(&*pool);
            consume_returns_every_buffer(pool@);
        }
        match pool.dequeue() {
            None => {
                self.starved = self.starved.saturating_add(1);
            },
            Some(buffer) => {
                self.frames = self.frames.saturating_add(1);
                self.bytes = self.bytes.saturating_add(buffer.len() as u64);
                let _ = pool.release(buffer);
            },
        }
    }

    /// The format in which the frames are to be read.
    pub fn format(&self) -> (r: NegotiatedFormat)
        ensures
            r == self@.format,
    {
        self.format
    }

    pub fn frames(&self) -> (r: u64)
        ensures
            r == self@.frames,
    {
        self.frames
    }

    pub fn bytes(&self) -> (r: u64)
        ensures
            r == self@.bytes,
    {
        self.bytes
    }

    pub fn starved(&self) -> (r: u64)
        ensures
            r == self@.starved,
    {
        self.starved
    }

    /// Whether at least one frame has been consumed.
    pub fn has_delivered(&self) -> (r: bool)
        ensures
            r == (self@.frames > 0),
    {
        self.frames > 0
    }
}

/// The pool after a number of callbacks of a consumer.
pub open spec fn after_callbacks(pool: PoolModel, callbacks: nat) -> PoolModel
    decreases callbacks,
{
    if callbacks == 0 {
        pool
    } else {
        after_callbacks(pool, (callbacks - 1) as nat).after_consume()
    }
}

/// However many callbacks run, the pool keeps its buffers: none stays lent
/// that was not lent before.
pub proof fn callbacks_keep_pool_size(pool: PoolModel, callbacks: nat)
    requires
        pool.valid(),
    ensures
        after_callbacks(pool, callbacks).valid(),
        after_callbacks(pool, callbacks).size() == pool.size(),
        after_callbacks(pool, callbacks).lent() == pool.lent(),
    decreases callbacks,
{
    if callbacks > 0 {
        callbacks_keep_pool_size(pool, (callbacks - 1) as nat);
        consume_returns_every_buffer(after_callbacks(pool, (callbacks - 1) as nat));
    }
}

} // verus!
