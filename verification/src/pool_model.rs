//! Mathematical model of the elastic buffer pool.
//!
//! The pool is a list of groups of equally sized buffers. The model forgets
//! the bytes and keeps the counts: how large each group is, how many of its
//! buffers are lent out and how many lie on its free stack.

use vstd::prelude::*;

verus! {

/// Buffers a fresh pool starts with.
pub const INITIAL_FRAMES: usize = 3;

/// Size of a group appended while the pool is small.
pub const SMALL_STEP: usize = 5;

/// Size of a group appended once the pool has grown.
pub const LARGE_STEP: usize = 10;

/// Pool size from which groups are appended in large steps.
pub const STEP_SWITCH_FRAMES: usize = 20;

/// Free buffers needed before the pool considers shrinking.
pub const HIGH_WATERMARK: usize = 8;

/// Consecutive releases that must find the pool shrinkable before it shrinks.
pub const SHRINK_RELEASE_STREAK: usize = 10;

/// Counts of one group of buffers.
pub struct GroupView {
    /// Buffers the group was created with.
    pub size: nat,
    /// Buffers currently lent out.
    pub borrowed: nat,
    /// Buffers on the free stack.
    pub free: nat,
}

/// Counts of a whole pool.
pub struct PoolView {
    pub frame_bytes: nat,
    pub groups: Seq<GroupView>,
    pub total_frames: nat,
    pub release_streak: nat,
    pub expand_count: nat,
    pub shrink_count: nat,
    pub acquire_count: nat,
    pub alloc_count: nat,
}

/// Sum of the free counts of `groups`.
pub open spec fn sum_free(groups: Seq<GroupView>) -> nat
    decreases groups.len(),
{
    if groups.len() == 0 {
        0
    } else {
        sum_free(groups.drop_last()) + groups.last().free
    }
}

/// Sum of the lent-out counts of `groups`.
pub open spec fn sum_borrowed(groups: Seq<GroupView>) -> nat
    decreases groups.len(),
{
    if groups.len() == 0 {
        0
    } else {
        sum_borrowed(groups.drop_last()) + groups.last().borrowed
    }
}

/// Sum of the sizes of `groups`.
pub open spec fn sum_size(groups: Seq<GroupView>) -> nat
    decreases groups.len(),
{
    if groups.len() == 0 {
        0
    } else {
        sum_size(groups.drop_last()) + groups.last().size
    }
}

/// Index of the newest group that has a free buffer, or -1 if none has.
pub open spec fn newest_with_free(groups: Seq<GroupView>) -> int
    decreases groups.len(),
{
    if groups.len() == 0 {
        -1
    } else if groups.last().free > 0 {
        groups.len() - 1
    } else {
        newest_with_free(groups.drop_last())
    }
}

/// Group size used for the next expansion of a pool of `total_frames` buffers.
pub open spec fn step_for(total_frames: nat) -> nat {
    if total_frames < STEP_SWITCH_FRAMES {
        SMALL_STEP as nat
    } else {
        LARGE_STEP as nat
    }
}

/// Two fifths of `step`, rounded up, but at least two.
pub open spec fn watermark_for(step: nat) -> nat {
    let scaled = (step * 2 + 4) / 5;
    if scaled < 2 {
        2
    } else {
        scaled as nat
    }
}

impl GroupView {
    /// A group of `size` buffers, all of them free.
    pub open spec fn fresh(size: nat) -> GroupView {
        GroupView { size, borrowed: 0, free: size }
    }

    /// Every buffer of the group is either lent out or free.
    pub open spec fn balanced(self) -> bool {
        self.borrowed + self.free == self.size
    }

    /// No buffer of the group is lent out.
    pub open spec fn is_fully_free(self) -> bool {
        self.borrowed == 0 && self.free == self.size
    }

    /// The group after one of its free buffers was lent out.
    pub open spec fn lend(self) -> GroupView {
        GroupView { size: self.size, borrowed: self.borrowed + 1, free: (self.free - 1) as nat }
    }

    /// The group after a buffer came back to it.
    pub open spec fn take_back(self) -> GroupView {
        GroupView {
            size: self.size,
            borrowed: if self.borrowed > 0 {
                (self.borrowed - 1) as nat
            } else {
                0
            },
            free: self.free + 1,
        }
    }
}

impl PoolView {
    /// A new pool for buffers of `frame_bytes` bytes.
    pub open spec fn fresh(frame_bytes: nat) -> PoolView {
        PoolView {
            frame_bytes,
            groups: seq![GroupView::fresh(INITIAL_FRAMES as nat)],
            total_frames: INITIAL_FRAMES as nat,
            release_streak: 0,
            expand_count: 0,
            shrink_count: 0,
            acquire_count: 0,
            alloc_count: INITIAL_FRAMES as nat,
        }
    }

    /// Number of buffers on the free stacks of all groups.
    pub open spec fn free_frames(self) -> nat {
        sum_free(self.groups)
    }

    /// Number of buffers lent out over all groups.
    pub open spec fn outstanding(self) -> nat {
        sum_borrowed(self.groups)
    }

    pub open spec fn current_step(self) -> nat {
        step_for(self.total_frames)
    }

    pub open spec fn low_watermark(self) -> nat {
        watermark_for(self.current_step())
    }

    /// The invariant of the pool.
    ///
    /// The oldest group is the one the pool started with. Every group accounts
    /// for each of its buffers, the total is the sum of the group sizes, and the
    /// counters tell the pool's history: one group per expansion that was not
    /// undone by a shrink, and as many allocations as there are buffers, plus
    /// those that a shrink gave up.
    pub open spec fn wf(self) -> bool {
        &&& self.groups.len() >= 1
        &&& self.groups[0].size == INITIAL_FRAMES
        &&& forall|g: int| 0 <= g < self.groups.len() ==> (#[trigger] self.groups[g]).balanced()
        &&& forall|g: int|
            0 <= g < self.groups.len() ==> 0 < (#[trigger] self.groups[g]).size <= LARGE_STEP
        &&& self.total_frames == sum_size(self.groups)
        &&& self.total_frames >= INITIAL_FRAMES
        &&& self.release_streak < SHRINK_RELEASE_STREAK
        &&& self.shrink_count + self.groups.len() == self.expand_count + 1
        &&& self.expand_count <= self.acquire_count
        &&& self.total_frames <= self.alloc_count <= self.total_frames + LARGE_STEP
            * self.shrink_count
        &&& self.shrink_count == 0 ==> self.alloc_count == self.total_frames
    }

    /// The pool with one more group of `size` fresh buffers.
    pub open spec fn append_group(self, size: nat) -> PoolView {
        PoolView {
            groups: self.groups.push(GroupView::fresh(size)),
            total_frames: self.total_frames + size,
            expand_count: self.expand_count + 1,
            alloc_count: self.alloc_count + size,
            ..self
        }
    }

    /// The pool once an acquire was counted and, if the free buffers had run
    /// below the low watermark, a group was appended.
    pub open spec fn replenished(self) -> PoolView {
        let counted = PoolView { acquire_count: self.acquire_count + 1, ..self };
        if counted.free_frames() < counted.low_watermark() {
            counted.append_group(counted.current_step())
        } else {
            counted
        }
    }

    /// Index of the group that the next acquire takes its buffer from.
    pub open spec fn acquire_group(self) -> int {
        newest_with_free(self.replenished().groups)
    }

    /// The pool after an acquire.
    pub open spec fn after_acquire(self) -> PoolView {
        let ready = self.replenished();
        let g = newest_with_free(ready.groups);
        PoolView { groups: ready.groups.update(g, ready.groups[g].lend()), ..ready }
    }

    /// Whether a release may give a buffer back to group `group_idx`: the
    /// group exists and has a buffer lent out.
    pub open spec fn lends_from(self, group_idx: int) -> bool {
        0 <= group_idx < self.groups.len() && self.groups[group_idx].borrowed > 0
    }

    /// The pool with a buffer pushed back onto group `group_idx`; unchanged when
    /// there is no such group.
    pub open spec fn returned(self, group_idx: int) -> PoolView {
        if 0 <= group_idx < self.groups.len() {
            PoolView {
                groups: self.groups.update(group_idx, self.groups[group_idx].take_back()),
                ..self
            }
        } else {
            self
        }
    }

    /// Whether the newest group could be given up: enough buffers are free,
    /// it is not the only group, none of its buffers is lent out, and the pool
    /// is larger than it started.
    pub open spec fn can_shrink(self) -> bool {
        &&& self.free_frames() >= HIGH_WATERMARK
        &&& self.groups.len() > 1
        &&& self.groups.last().is_fully_free()
        &&& self.total_frames > INITIAL_FRAMES
    }

    /// The pool after the shrink rule ran once: a shrinkable pool lengthens its
    /// streak and gives up its newest group when the streak is complete; any
    /// other pool starts its streak anew.
    pub open spec fn settled(self) -> PoolView {
        if self.can_shrink() {
            if self.release_streak + 1 >= SHRINK_RELEASE_STREAK {
                PoolView {
                    groups: self.groups.drop_last(),
                    total_frames: if self.total_frames >= self.groups.last().size {
                        (self.total_frames - self.groups.last().size) as nat
                    } else {
                        0
                    },
                    shrink_count: self.shrink_count + 1,
                    release_streak: 0,
                    ..self
                }
            } else {
                PoolView { release_streak: self.release_streak + 1, ..self }
            }
        } else {
            PoolView { release_streak: 0, ..self }
        }
    }

    /// The pool after the buffer of a loan from group `group_idx` came back.
    pub open spec fn after_release(self, group_idx: int) -> PoolView {
        self.returned(group_idx).settled()
    }

    /// The pool after `n` acquires in a row.
    pub open spec fn after_acquires(self, n: nat) -> PoolView
        decreases n,
    {
        if n == 0 {
            self
        } else {
            self.after_acquires((n - 1) as nat).after_acquire()
        }
    }

    /// Whether the releases `drops`, made in this order, each give a buffer
    /// back to a group that has one lent out at that moment.
    pub open spec fn releases_valid(self, drops: Seq<int>) -> bool
        decreases drops.len(),
    {
        if drops.len() == 0 {
            true
        } else {
            self.lends_from(drops[0]) && self.after_release(drops[0]).releases_valid(
                drops.drop_first(),
            )
        }
    }

    /// The pool after the releases `drops`, made in this order.
    pub open spec fn after_releases(self, drops: Seq<int>) -> PoolView
        decreases drops.len(),
    {
        if drops.len() == 0 {
            self
        } else {
            self.after_release(drops[0]).after_releases(drops.drop_first())
        }
    }

    /// The pool after `rounds` frames of a stream in which each frame rents a
    /// buffer and then gives back the one rented for the frame before it.
    pub open spec fn after_stream(self, held: int, rounds: nat) -> PoolView
        decreases rounds,
    {
        if rounds == 0 {
            self
        } else {
            self.after_acquire().after_release(held).after_stream(
                self.acquire_group(),
                (rounds - 1) as nat,
            )
        }
    }
}

} // verus!
