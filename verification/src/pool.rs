//! The elastic pool of reusable frame buffers.
//!
//! Buffers of one fixed size are kept in groups. An acquire takes a buffer from
//! the newest group that has one, growing the pool first when few are free. A
//! release pushes the buffer back onto the group it came from and, after a
//! streak of releases that found the newest group unused, gives that group up.
//!
//! The pool is a plain value: whoever shares it between owners or threads
//! wraps it in a lock of their own.

use vstd::prelude::*;

use crate::pool_laws::{
    lemma_acquire, lemma_newest_with_free, lemma_release, lemma_replenished, lemma_returned,
    lemma_settled, lemma_sum_free_prefix, lemma_sums_balanced,
};
use crate::pool_model::{
    newest_with_free, sum_free, sum_size, GroupView, PoolView, HIGH_WATERMARK, INITIAL_FRAMES,
    LARGE_STEP, SHRINK_RELEASE_STREAK, SMALL_STEP, STEP_SWITCH_FRAMES,
};

verus! {

/// A buffer of `n` zero bytes.
pub open spec fn zero_frame(n: nat) -> Seq<u8> {
    Seq::new(n, |i: int| 0u8)
}

/// `data` brought to `n` bytes: cut if it is longer, filled up with zeros if
/// it is shorter.
pub open spec fn spec_fit(data: Seq<u8>, n: nat) -> Seq<u8> {
    if data.len() >= n {
        data.take(n as int)
    } else {
        data + zero_frame((n - data.len()) as nat)
    }
}

/// Counters of a pool, for diagnostics.
#[derive(Debug, Clone, Copy)]
pub struct PoolStats {
    pub total_frames: usize,
    pub free_frames: usize,
    pub expand_count: usize,
    pub shrink_count: usize,
    pub acquire_count: usize,
    pub alloc_count: usize,
}

/// One slab of buffers with its free stack.
pub struct Group {
    size: usize,
    borrowed: usize,
    free: Vec<Vec<u8>>,
}

/// The groups of a pool and its counters.
pub struct State {
    groups: Vec<Group>,
    total_frames: usize,
    release_streak: usize,
    expand_count: usize,
    shrink_count: usize,
    acquire_count: usize,
    alloc_count: usize,
}

/// A pool of byte buffers of one size that grows and shrinks with demand.
pub struct ElasticBufferPool {
    frame_bytes: usize,
    state: State,
}

/// A buffer on loan from a pool, with the index of the group that lent it.
pub struct PooledBuffer {
    data: Vec<u8>,
    group_idx: usize,
}

impl View for Group {
    type V = GroupView;

    closed spec fn view(&self) -> GroupView {
        GroupView {
            size: self.size as nat,
            borrowed: self.borrowed as nat,
            free: self.free@.len(),
        }
    }
}

impl Group {
    /// The buffers on the free stack, the one to be lent next last.
    pub closed spec fn stack(&self) -> Seq<Seq<u8>> {
        Seq::new(self.free@.len(), |i: int| self.free@[i]@)
    }

    /// Every buffer on the free stack has `frame_bytes` bytes.
    pub closed spec fn holds_frames_of(&self, frame_bytes: nat) -> bool {
        forall|i: int|
            0 <= i < self.free@.len() ==> (#[trigger] self.free@[i])@.len() == frame_bytes
    }

    /// Allocate a group of `size` zeroed buffers of `frame_bytes` bytes each.
    pub fn new(size: usize, frame_bytes: usize) -> (group: Group)
        ensures
            group@ == GroupView::fresh(size as nat),
            group.holds_frames_of(frame_bytes as nat),
            group.stack() == Seq::new(size as nat, |i: int| zero_frame(frame_bytes as nat)),
    {
        let mut free: Vec<Vec<u8>> = Vec::with_capacity(size);
        let mut n: usize = 0;
        while n < size
            invariant
                n <= size,
                free@.len() == n,
                forall|i: int|
                    0 <= i < free@.len() ==> (#[trigger] free@[i])@ == zero_frame(
                        frame_bytes as nat,
                    ),
            decreases size - n,
        {
            let buffer: Vec<u8> = vec![0u8; frame_bytes];
            assert(buffer@ =~= zero_frame(frame_bytes as nat));
            free.push(buffer);
            n += 1;
        }
        let group = Group { size, borrowed: 0, free };
        assert(group.stack() =~= Seq::new(size as nat, |i: int| zero_frame(frame_bytes as nat)));
        group
    }

    /// Whether none of the group's buffers is lent out.
    pub fn is_fully_free(&self) -> (fully: bool)
        ensures
            fully == self@.is_fully_free(),
    {
        self.borrowed == 0 && self.free.len() == self.size
    }
}

impl View for State {
    type V = PoolView;

    /// The counts of the state. The state does not know the buffer size: it
    /// reads as zero here, and the pool's own view fills it in.
    closed spec fn view(&self) -> PoolView {
        PoolView {
            frame_bytes: 0,
            groups: Seq::new(self.groups@.len(), |g: int| self.groups@[g]@),
            total_frames: self.total_frames as nat,
            release_streak: self.release_streak as nat,
            expand_count: self.expand_count as nat,
            shrink_count: self.shrink_count as nat,
            acquire_count: self.acquire_count as nat,
            alloc_count: self.alloc_count as nat,
        }
    }
}

impl State {
    /// Every free buffer of every group has `frame_bytes` bytes.
    pub closed spec fn holds_frames_of(&self, frame_bytes: nat) -> bool {
        forall|g: int|
            0 <= g < self.groups@.len() ==> (#[trigger] self.groups@[g]).holds_frames_of(
                frame_bytes,
            )
    }

    /// The free stack of group `g`.
    pub closed spec fn stack(&self, g: int) -> Seq<Seq<u8>> {
        self.groups@[g].stack()
    }

    /// Number of buffers that lie on a free stack.
    pub fn free_frames(&self) -> (free: usize)
        requires
            self@.wf(),
        ensures
            free == self@.free_frames(),
            free <= self@.total_frames,
    {
        let ghost groups = self@.groups;
        proof {
            lemma_sums_balanced(groups);
        }
        let mut free: usize = 0;
        let mut g: usize = 0;
        while g < self.groups.len()
            invariant
                g <= self.groups@.len(),
                groups == self@.groups,
                groups.len() == self.groups@.len(),
                free == sum_free(groups.take(g as int)),
                sum_free(groups) <= usize::MAX,
            decreases self.groups@.len() - g,
        {
            proof {
                lemma_sum_free_prefix(groups, g as int);
                lemma_sum_free_prefix(groups, g as int + 1);
                assert(groups[g as int] == self.groups@[g as int]@);
            }
            free += self.groups[g].free.len();
            g += 1;
        }
        assert(groups.take(g as int) =~= groups);
        free
    }

    /// Size of the group that the next expansion appends.
    pub fn current_step(&self) -> (step: usize)
        ensures
            step == self@.current_step(),
            step == SMALL_STEP || step == LARGE_STEP,
    {
        if self.total_frames < STEP_SWITCH_FRAMES {
            SMALL_STEP
        } else {
            LARGE_STEP
        }
    }

    /// Number of free buffers below which an acquire grows the pool.
    pub fn low_watermark(&self) -> (mark: usize)
        ensures
            mark == self@.low_watermark(),
            mark >= 2,
    {
        let step: usize = self.current_step();
        let scaled: usize = (step * 2 + 4) / 5;
        if scaled < 2 {
            2
        } else {
            scaled
        }
    }

    /// Append a group of `size` fresh buffers and count the expansion.
    pub fn append_group(&mut self, size: usize, frame_bytes: usize)
        requires
            old(self)@.total_frames + size <= usize::MAX,
            old(self)@.alloc_count + size <= usize::MAX,
            old(self)@.expand_count < usize::MAX,
            old(self).holds_frames_of(frame_bytes as nat),
        ensures
            final(self)@ == old(self)@.append_group(size as nat),
            final(self).holds_frames_of(frame_bytes as nat),
            forall|g: int|
                0 <= g < old(self)@.groups.len() ==> final(self).stack(g) == old(self).stack(g),
            final(self).stack(old(self)@.groups.len() as int) == Seq::new(
                size as nat,
                |i: int| zero_frame(frame_bytes as nat),
            ),
    {
        let group = Group::new(size, frame_bytes);
        self.groups.push(group);
        self.total_frames += size;
        self.expand_count += 1;
        self.alloc_count += size;
        assert(final(self)@.groups =~= old(self)@.groups.push(GroupView::fresh(size as nat)));
        assert forall|g: int| 0 <= g < self.groups@.len() implies (
        #[trigger] self.groups@[g]).holds_frames_of(frame_bytes as nat) by {
            if g < old(self).groups@.len() {
                assert(self.groups@[g] == old(self).groups@[g]);
            }
        }
    }
}

impl View for ElasticBufferPool {
    type V = PoolView;

    closed spec fn view(&self) -> PoolView {
        PoolView { frame_bytes: self.frame_bytes as nat, ..self.state@ }
    }
}

impl View for PooledBuffer {
    type V = Seq<u8>;

    closed spec fn view(&self) -> Seq<u8> {
        self.data@
    }
}

impl ElasticBufferPool {
    /// The pool's invariant: that of its model, and every free buffer has the
    /// pool's frame size.
    pub closed spec fn wf(&self) -> bool {
        &&& self@.wf()
        &&& self.state.holds_frames_of(self.frame_bytes as nat)
    }

    /// The buffers on the free stack of group `g`, the one to be lent next
    /// last.
    pub closed spec fn free_stack(&self, g: int) -> Seq<Seq<u8>> {
        self.state.stack(g)
    }

    /// A pool that keeps its invariant keeps that of its model: every group
    /// accounts for each of its buffers, the total is the sum of the group
    /// sizes and at least `INITIAL_FRAMES`, and the free buffers are all
    /// buffers but those lent out.
    pub proof fn lemma_wf_model(&self)
        requires
            self.wf(),
        ensures
            self@.wf(),
            self@.total_frames >= INITIAL_FRAMES,
            self@.total_frames == sum_size(self@.groups),
            self@.free_frames() + self@.outstanding() == self@.total_frames,
            self@.total_frames <= self@.alloc_count,
    {
        lemma_sums_balanced(self@.groups);
    }

    /// In a pool that keeps its invariant, the free stack of a group holds as
    /// many buffers as the group counts free, each of the pool's frame size.
    pub proof fn lemma_free_stack(&self, g: int)
        requires
            self.wf(),
            0 <= g < self@.groups.len(),
        ensures
            self.free_stack(g).len() == self@.groups[g].free,
            forall|i: int|
                0 <= i < self.free_stack(g).len() ==> (#[trigger] self.free_stack(g)[i]).len()
                    == self@.frame_bytes,
    {
        assert(self@.groups[g] == self.state.groups@[g]@);
        assert(self.state.groups@[g].holds_frames_of(self.frame_bytes as nat));
        assert forall|i: int| 0 <= i < self.free_stack(g).len() implies (
        #[trigger] self.free_stack(g)[i]).len() == self@.frame_bytes by {
            assert(self.free_stack(g)[i] == self.state.groups@[g].free@[i]@);
        }
    }

    /// Whether the counters leave room for one more acquire.
    pub open spec fn has_headroom(&self) -> bool {
        &&& self@.acquire_count < usize::MAX
        &&& self@.alloc_count + LARGE_STEP <= usize::MAX
    }

    /// A pool of `INITIAL_FRAMES` free buffers of `frame_bytes` bytes each.
    pub fn new(frame_bytes: usize) -> (pool: ElasticBufferPool)
        ensures
            pool.wf(),
            pool@.wf(),
            pool@ == PoolView::fresh(frame_bytes as nat),
            pool.free_stack(0) == Seq::new(
                INITIAL_FRAMES as nat,
                |i: int| zero_frame(frame_bytes as nat),
            ),
    {
        let mut groups: Vec<Group> = Vec::new();
        groups.push(Group::new(INITIAL_FRAMES, frame_bytes));
        let state = State {
            groups,
            total_frames: INITIAL_FRAMES,
            release_streak: 0,
            expand_count: 0,
            shrink_count: 0,
            acquire_count: 0,
            alloc_count: INITIAL_FRAMES,
        };
        let pool = ElasticBufferPool { frame_bytes, state };
        proof {
            let fresh = PoolView::fresh(frame_bytes as nat);
            assert(pool@.groups =~= fresh.groups);
            assert(fresh.groups.drop_last() =~= Seq::<GroupView>::empty());
            assert(sum_size(fresh.groups) == INITIAL_FRAMES) by {
                assert(sum_size(fresh.groups.drop_last()) == 0);
            }
        }
        pool
    }

    /// Size in bytes of every buffer of this pool.
    pub fn frame_bytes(&self) -> (n: usize)
        ensures
            n == self@.frame_bytes,
    {
        self.frame_bytes
    }

    /// Whether the counters leave room for one more acquire.
    pub fn can_acquire(&self) -> (room: bool)
        ensures
            room == self.has_headroom(),
    {
        self.state.acquire_count < usize::MAX && self.state.alloc_count <= usize::MAX - LARGE_STEP
    }

    /// Rent one buffer.
    ///
    /// The acquire is counted; if fewer buffers are free than the low
    /// watermark, a group of the current step size is appended first. The
    /// buffer comes from the newest group that has a free one, and has the
    /// pool's frame size.
    pub fn acquire(&mut self) -> (buffer: PooledBuffer)
        requires
            old(self).wf(),
            old(self).has_headroom(),
        ensures
            final(self).wf(),
            final(self)@.wf(),
            final(self)@ == old(self)@.after_acquire(),
            buffer.group_idx() == old(self)@.acquire_group(),
            final(self)@.lends_from(buffer.group_idx() as int),
            buffer@.len() == final(self)@.frame_bytes,
            final(self)@.outstanding() == old(self)@.outstanding() + 1,
            // The buffer is the top of its group's free stack: of the stack as
            // it was, or of a stack of zeroed buffers if the group is new.
            ({
                let g = buffer.group_idx() as int;
                let stack = if g < old(self)@.groups.len() {
                    old(self).free_stack(g)
                } else {
                    Seq::new(
                        old(self)@.current_step(),
                        |i: int| zero_frame(old(self)@.frame_bytes),
                    )
                };
                &&& stack.len() > 0
                &&& buffer@ == stack.last()
                &&& final(self).free_stack(g) == stack.drop_last()
            }),
            forall|k: int|
                0 <= k < old(self)@.groups.len() && k != buffer.group_idx() ==> final(self).free_stack(k) == old(self).free_stack(k),
    {
        proof {
            lemma_replenished(self@);
            lemma_acquire(self@);
        }
        self.state.acquire_count += 1;
        let ghost counted = self@;
        assert(counted == (PoolView { acquire_count: old(self)@.acquire_count + 1, ..old(self)@ }));
        if self.state.free_frames() < self.state.low_watermark() {
            let step: usize = self.state.current_step();
            self.state.append_group(step, self.frame_bytes);
        }
        let ghost ready = self@;
        let ghost ready_pool = *self;
        assert(ready == old(self)@.replenished());
        assert(forall|k: int|
            0 <= k < old(self)@.groups.len() ==> ready_pool.free_stack(k) == old(self).free_stack(
                k,
            ));
        proof {
            lemma_newest_with_free(ready.groups);
        }
        let mut g: usize = self.state.groups.len();
        while g > 0 && self.state.groups[g - 1].free.len() == 0
            invariant
                g <= self.state.groups@.len(),
                self@ == ready,
                self.state.holds_frames_of(self.frame_bytes as nat),
                newest_with_free(ready.groups) < g,
                forall|j: int| g <= j < ready.groups.len() ==> (#[trigger] ready.groups[j]).free == 0,
            decreases g,
        {
            proof {
                lemma_newest_with_free(ready.groups);
                assert(ready.groups[g - 1] == self.state.groups@[g - 1]@);
            }
            g -= 1;
        }
        assert(g > 0);
        let idx: usize = g - 1;
        assert(ready.groups[idx as int] == self.state.groups@[idx as int]@);
        assert(idx == newest_with_free(ready.groups));
        assert(self.state.groups@[idx as int].holds_frames_of(self.frame_bytes as nat));
        assert(ready.groups[idx as int].balanced());
        let ghost before = self.state.groups@;
        let group = &mut self.state.groups[idx];
        let taken = group.free.pop();
        group.borrowed += 1;
        let data = match taken {
            Some(data) => data,
            None => Vec::new(),
        };
        proof {
            assert(self.state.groups@[idx as int]@ == ready.groups[idx as int].lend());
            assert(self@.groups =~= ready.groups.update(idx as int, ready.groups[idx as int].lend()));
            assert forall|k: int| 0 <= k < self.state.groups@.len() implies (
            #[trigger] self.state.groups@[k]).holds_frames_of(self.frame_bytes as nat) by {
                if k != idx {
                    assert(self.state.groups@[k] == before[k]);
                }
            }
            assert forall|k: int| 0 <= k < old(self)@.groups.len() && k != idx implies self.free_stack(
                k,
            ) == old(self).free_stack(k) by {
                assert(self.state.groups@[k] == before[k]);
                assert(self.free_stack(k) == ready_pool.free_stack(k));
            }
        }
        PooledBuffer { data, group_idx: idx }
    }

    /// The pool's counters at this moment.
    pub fn stats(&self) -> (stats: PoolStats)
        requires
            self.wf(),
        ensures
            stats.total_frames == self@.total_frames,
            stats.free_frames == self@.free_frames(),
            stats.expand_count == self@.expand_count,
            stats.shrink_count == self@.shrink_count,
            stats.acquire_count == self@.acquire_count,
            stats.alloc_count == self@.alloc_count,
    {
        PoolStats {
            total_frames: self.state.total_frames,
            free_frames: self.state.free_frames(),
            expand_count: self.state.expand_count,
            shrink_count: self.state.shrink_count,
            acquire_count: self.state.acquire_count,
            alloc_count: self.state.alloc_count,
        }
    }

    /// Whether group `group_idx` exists and has a buffer lent out, so that a
    /// buffer may be released to it.
    pub fn lends_from(&self, group_idx: usize) -> (lends: bool)
        ensures
            lends == self@.lends_from(group_idx as int),
    {
        if group_idx < self.state.groups.len() {
            assert(self@.groups[group_idx as int] == self.state.groups@[group_idx as int]@);
            self.state.groups[group_idx].borrowed > 0
        } else {
            false
        }
    }

    /// Take back the bytes of a loan from group `group_idx`.
    ///
    /// The buffer is brought back to the pool's frame size and pushed onto the
    /// free stack of its group. Then the shrink rule runs: while at least
    /// `HIGH_WATERMARK` buffers are free, the newest group is fully free and is
    /// not the only one, each release lengthens a streak, and the release that
    /// completes a streak of `SHRINK_RELEASE_STREAK` gives the newest group up.
    /// Any other release starts the streak anew.
    pub fn release_inner(&mut self, group_idx: usize, data: Vec<u8>)
        requires
            old(self).wf(),
            old(self)@.lends_from(group_idx as int),
        ensures
            final(self).wf(),
            final(self)@.wf(),
            final(self)@ == old(self)@.after_release(group_idx as int),
            final(self)@.outstanding() + 1 == old(self)@.outstanding(),
            group_idx < final(self)@.groups.len() ==> final(self)@.groups[group_idx as int].free
                == old(self)@.groups[group_idx as int].free + 1,
            forall|g: int|
                0 <= g < final(self)@.groups.len() ==> (#[trigger] final(self)@.groups[g]).balanced(),
            // The bytes, at the pool's frame size again, lie on top of the
            // free stack of their group; no other stack has changed.
            group_idx < final(self)@.groups.len() ==> final(self).free_stack(group_idx as int)
                == old(self).free_stack(group_idx as int).push(
                spec_fit(data@, old(self)@.frame_bytes),
            ),
            forall|k: int|
                0 <= k < final(self)@.groups.len() && k != group_idx ==> final(self).free_stack(k)
                    == old(self).free_stack(k),
    {
        proof {
            lemma_returned(self@, group_idx as int);
            lemma_settled(self@.returned(group_idx as int));
            lemma_release(self@, group_idx as int);
        }
        let ghost given = data@;
        let mut data = data;
        if data.len() != self.frame_bytes {
            data.resize(self.frame_bytes, 0);
        }
        assert(data@ =~= spec_fit(given, self.frame_bytes as nat));
        let ghost before = self.state.groups@;
        assert(old(self)@.groups[group_idx as int] == before[group_idx as int]@);
        assert(old(self)@.groups[group_idx as int].balanced());
        if group_idx < self.state.groups.len() {
            let group = &mut self.state.groups[group_idx];
            if group.borrowed > 0 {
                group.borrowed -= 1;
            }
            group.free.push(data);
        }
        let ghost back = self@;
        let ghost back_pool = *self;
        proof {
            assert(back_pool.free_stack(group_idx as int) =~= old(self).free_stack(
                group_idx as int,
            ).push(spec_fit(given, self.frame_bytes as nat)));
            assert forall|k: int|
                0 <= k < self.state.groups@.len() && k != group_idx implies back_pool.free_stack(k)
                == old(self).free_stack(k) by {
                assert(self.state.groups@[k] == before[k]);
            }
            assert(self.state.groups@[group_idx as int]@ == old(self)@.groups[group_idx as int]
                .take_back());
            assert(back.groups =~= old(self)@.groups.update(
                group_idx as int,
                old(self)@.groups[group_idx as int].take_back(),
            ));
            assert(back == old(self)@.returned(group_idx as int));
            assert forall|k: int| 0 <= k < self.state.groups@.len() implies (
            #[trigger] self.state.groups@[k]).holds_frames_of(self.frame_bytes as nat) by {
                if k != group_idx {
                    assert(self.state.groups@[k] == before[k]);
                } else {
                    assert(before[k].holds_frames_of(self.frame_bytes as nat));
                }
            }
        }
        let n: usize = self.state.groups.len();
        assert(back.groups.last() == self.state.groups@[n - 1]@);
        let can_shrink: bool = self.state.free_frames() >= HIGH_WATERMARK && n > 1
            && self.state.groups[n - 1].is_fully_free() && self.state.total_frames
            > INITIAL_FRAMES;
        assert(can_shrink == back.can_shrink());
        if can_shrink {
            self.state.release_streak += 1;
            if self.state.release_streak >= SHRINK_RELEASE_STREAK {
                let last_size: usize = self.state.groups[n - 1].size;
                self.state.total_frames = self.state.total_frames.saturating_sub(last_size);
                let _ = self.state.groups.pop();
                self.state.shrink_count += 1;
                self.state.release_streak = 0;
                assert(self@.groups =~= back.groups.drop_last());
            }
        } else {
            self.state.release_streak = 0;
        }
        assert(self@ == back.settled());
        assert forall|k: int| 0 <= k < self.state.groups@.len() implies self.free_stack(k)
            == back_pool.free_stack(k) by {
            assert(self.state.groups@[k] == back_pool.state.groups@[k]);
        }
    }

    /// Give a rented buffer back to the pool.
    pub fn release(&mut self, buffer: PooledBuffer)
        requires
            old(self).wf(),
            old(self)@.lends_from(buffer.group_idx() as int),
        ensures
            final(self).wf(),
            final(self)@.wf(),
            final(self)@ == old(self)@.after_release(buffer.group_idx() as int),
            final(self)@.outstanding() + 1 == old(self)@.outstanding(),
            buffer.group_idx() < final(self)@.groups.len() ==> final(self).free_stack(
                buffer.group_idx() as int,
            ) == old(self).free_stack(buffer.group_idx() as int).push(
                spec_fit(buffer@, old(self)@.frame_bytes),
            ),
            forall|k: int|
                0 <= k < final(self)@.groups.len() && k != buffer.group_idx() ==> final(
                    self).free_stack(k) == old(self).free_stack(k),
    {
        let PooledBuffer { data, group_idx } = buffer;
        self.release_inner(group_idx, data);
    }
}

impl PooledBuffer {
    /// Index of the group that lent this buffer.
    pub closed spec fn group_idx(&self) -> usize {
        self.group_idx
    }

    /// The buffer's bytes.
    pub fn as_slice(&self) -> (bytes: &[u8])
        ensures
            bytes@ == self@,
    {
        self.data.as_slice()
    }

    /// The buffer's bytes, for writing.
    pub fn as_mut_slice(&mut self) -> (bytes: &mut [u8])
        ensures
            bytes@ == old(self)@,
            final(self)@ == final(bytes)@,
            final(self).group_idx() == old(self).group_idx(),
    {
        self.data.as_mut_slice()
    }

    /// Take the bytes out of the loan; the pool does not get them back.
    pub fn into_vec(self) -> (bytes: Vec<u8>)
        ensures
            bytes@ == self@,
    {
        self.data
    }

    /// Split the loan into its bytes and the index of the group that lent them.
    pub fn into_parts(self) -> (parts: (Vec<u8>, usize))
        ensures
            parts.0@ == self@,
            parts.1 == self.group_idx(),
    {
        (self.data, self.group_idx)
    }
}

} // verus!
