use vstd::prelude::*;
use crate::frame::AudioFrame;

verus! {

/// A bounded queue of audio frames that never blocks: when it is full, a
/// push overwrites the oldest unread frame and counts the drop. It bridges
/// the capture side and the detection side of the pipeline; detection cares
/// about recent audio only, so bounded staleness is acceptable.
///
/// Its view is the sequence of unread frames, oldest first.
pub struct RingBuffer {
    frames: Vec<AudioFrame>,
    capacity: usize,
    dropped: u64,
}

/// One push onto a bounded queue of capacity `capacity`: when the queue is
/// full, the oldest entry gives way to the new one.
pub open spec fn push_model<T>(s: Seq<T>, capacity: int, item: T) -> Seq<T> {
    if s.len() >= capacity {
        s.drop_first().push(item)
    } else {
        s.push(item)
    }
}

/// `push_model` folded over `items`, oldest first.
pub open spec fn push_all_model<T>(s: Seq<T>, capacity: int, items: Seq<T>) -> Seq<T>
    decreases items.len(),
{
    if items.len() == 0 {
        s
    } else {
        push_all_model(push_model(s, capacity, items.first()), capacity, items.drop_first())
    }
}

/// The at most `capacity` most recent entries of `s`, in their original order.
pub open spec fn most_recent<T>(s: Seq<T>, capacity: int) -> Seq<T> {
    if s.len() <= capacity {
        s
    } else {
        s.subrange(s.len() - capacity, s.len() as int)
    }
}

impl View for RingBuffer {
    type V = Seq<AudioFrame>;

    closed spec fn view(&self) -> Seq<AudioFrame> {
        self.frames@
    }
}

impl RingBuffer {
    /// How many frames the buffer can hold before it overwrites.
    pub closed spec fn capacity_spec(self) -> int {
        self.capacity as int
    }

    /// How many frames have been overwritten unread so far.
    pub closed spec fn dropped_spec(self) -> int {
        self.dropped as int
    }

    /// The buffer never holds more than its capacity, and holds at least one slot.
    pub open spec fn wf(self) -> bool {
        &&& 1 <= self.capacity_spec()
        &&& self@.len() <= self.capacity_spec()
    }

    /// An empty buffer of the given capacity.
    pub fn new(capacity: usize) -> (rb: RingBuffer)
        requires
            1 <= capacity,
        ensures
            rb.wf(),
            rb@ == Seq::<AudioFrame>::empty(),
            rb.capacity_spec() == capacity,
            rb.dropped_spec() == 0,
    {
        RingBuffer { frames: Vec::new(), capacity, dropped: 0 }
    }

    /// The configured capacity.
    pub fn capacity(&self) -> (c: usize)
        ensures
            c as int == self.capacity_spec(),
    {
        self.capacity
    }

    /// How many unread frames the buffer holds now.
    pub fn len(&self) -> (n: usize)
        ensures
            n as int == self@.len(),
    {
        self.frames.len()
    }

    /// Diagnostic counter of frames overwritten before they were read.
    pub fn dropped_frames(&self) -> (n: u64)
        ensures
            n as int == self.dropped_spec(),
    {
        self.dropped
    }

    /// Stores `item` without ever blocking. When the buffer is full the
    /// oldest unread frame is overwritten and the drop is counted.
    pub fn push(&mut self, item: AudioFrame)
        requires
            old(self).wf(),
            old(self).dropped_spec() < u64::MAX,
        ensures
            final(self).wf(),
            final(self)@ == push_model(old(self)@, old(self).capacity_spec(), item),
            final(self).capacity_spec() == old(self).capacity_spec(),
            final(self).dropped_spec() == old(self).dropped_spec()
                + (if old(self)@.len() >= old(self).capacity_spec() { 1int } else { 0int }),
    {
        if self.frames.len() == self.capacity {
            let _oldest = self.frames.remove(0);
            self.dropped = self.dropped + 1;
            proof {
                assert(self.frames@ =~= old(self).frames@.drop_first());
            }
        }
        self.frames.push(item);
    }

    /// Removes and returns the oldest unread frame, or nothing when the
    /// buffer is empty; never blocks.
    pub fn pop(&mut self) -> (r: Option<AudioFrame>)
        requires
            old(self).wf(),
        ensures
            final(self).wf(),
            final(self).capacity_spec() == old(self).capacity_spec(),
            final(self).dropped_spec() == old(self).dropped_spec(),
            old(self)@.len() == 0 ==> r is None && final(self)@ == old(self)@,
            old(self)@.len() > 0 ==> r == Some(old(self)@.first())
                && final(self)@ == old(self)@.drop_first(),
    {
        if self.frames.len() == 0 {
            None
        } else {
            let f = self.frames.remove(0);
            proof {
                assert(self.frames@ =~= old(self).frames@.drop_first());
            }
            Some(f)
        }
    }
}

/// Pushing any run of items onto a buffer that holds at most its capacity
/// leaves exactly the most recent entries of everything seen so far.
pub proof fn lemma_pushes_keep_most_recent<T>(s: Seq<T>, capacity: int, items: Seq<T>)
    requires
        1 <= capacity,
        s.len() <= capacity,
    ensures
        push_all_model(s, capacity, items) == most_recent(s + items, capacity),
    decreases items.len(),
{
    if items.len() == 0 {
        assert(s + items =~= s);
    } else {
        let s1 = push_model(s, capacity, items.first());
        lemma_pushes_keep_most_recent(s1, capacity, items.drop_first());
        if s.len() < capacity {
            assert(s1 + items.drop_first() =~= s + items);
            assert(most_recent(s1 + items.drop_first(), capacity)
                =~= most_recent(s + items, capacity));
        } else {
            let t = s + items;
            assert(s1 + items.drop_first() =~= t.drop_first());
            assert(most_recent(t.drop_first(), capacity) =~= most_recent(t, capacity));
        }
    }
}

/// Oldest-overwrite law: after a sequence of pushes that exceeds the
/// capacity of an initially empty buffer, the buffer holds exactly the most
/// recent `capacity` frames, in the order they were pushed; `pop` then hands
/// them out front to back.
pub proof fn lemma_overflow_keeps_latest<T>(capacity: int, items: Seq<T>)
    requires
        1 <= capacity,
        capacity <= items.len(),
    ensures
        push_all_model(Seq::<T>::empty(), capacity, items)
            == items.subrange(items.len() - capacity, items.len() as int),
{
    lemma_pushes_keep_most_recent(Seq::<T>::empty(), capacity, items);
    assert(Seq::<T>::empty() + items =~= items);
}

} // verus!
