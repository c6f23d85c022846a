//! What holds of every elastic pool, proved over its model.

use vstd::prelude::*;

use crate::pool_model::{
    newest_with_free, sum_borrowed, sum_free, sum_size, GroupView, PoolView, INITIAL_FRAMES,
    LARGE_STEP, SHRINK_RELEASE_STREAK,
};

verus! {

/// Appending a group adds its counts to the sums.
pub proof fn lemma_sums_push(groups: Seq<GroupView>, g: GroupView)
    ensures
        sum_free(groups.push(g)) == sum_free(groups) + g.free,
        sum_borrowed(groups.push(g)) == sum_borrowed(groups) + g.borrowed,
        sum_size(groups.push(g)) == sum_size(groups) + g.size,
{
    assert(groups.push(g).drop_last() =~= groups);
}

/// Replacing one group changes the sums by the difference of its counts.
pub proof fn lemma_sums_update(groups: Seq<GroupView>, i: int, g: GroupView)
    requires
        0 <= i < groups.len(),
    ensures
        sum_free(groups.update(i, g)) + groups[i].free == sum_free(groups) + g.free,
        sum_borrowed(groups.update(i, g)) + groups[i].borrowed == sum_borrowed(groups)
            + g.borrowed,
        sum_size(groups.update(i, g)) + groups[i].size == sum_size(groups) + g.size,
    decreases groups.len(),
{
    if i == groups.len() - 1 {
        assert(groups.update(i, g).drop_last() =~= groups.drop_last());
    } else {
        lemma_sums_update(groups.drop_last(), i, g);
        assert(groups.update(i, g).drop_last() =~= groups.drop_last().update(i, g));
    }
}

/// The free buffers of the first `n` groups are among those of all groups.
pub proof fn lemma_sum_free_prefix(groups: Seq<GroupView>, n: int)
    requires
        0 <= n <= groups.len(),
    ensures
        sum_free(groups.take(n)) <= sum_free(groups),
        n < groups.len() ==> sum_free(groups.take(n + 1)) == sum_free(groups.take(n))
            + groups[n].free,
    decreases groups.len() - n,
{
    if n == groups.len() {
        assert(groups.take(n) =~= groups);
    } else {
        assert(groups.take(n + 1).drop_last() =~= groups.take(n));
        lemma_sum_free_prefix(groups, n + 1);
    }
}

/// In groups that account for each of their buffers, the lent-out and the free
/// buffers together are all buffers.
pub proof fn lemma_sums_balanced(groups: Seq<GroupView>)
    requires
        forall|g: int| 0 <= g < groups.len() ==> (#[trigger] groups[g]).balanced(),
    ensures
        sum_borrowed(groups) + sum_free(groups) == sum_size(groups),
    decreases groups.len(),
{
    if groups.len() > 0 {
        let rest = groups.drop_last();
        assert forall|g: int| 0 <= g < rest.len() implies (#[trigger] rest[g]).balanced() by {
            assert(rest[g] == groups[g]);
        }
        lemma_sums_balanced(rest);
        assert(groups.last().balanced());
    }
}

/// Where any buffer is free, the newest group with a free buffer exists, and
/// every newer group has none.
pub proof fn lemma_newest_with_free(groups: Seq<GroupView>)
    ensures
        sum_free(groups) > 0 ==> 0 <= newest_with_free(groups) < groups.len(),
        sum_free(groups) == 0 ==> newest_with_free(groups) == -1,
        -1 <= newest_with_free(groups) < groups.len(),
        newest_with_free(groups) >= 0 ==> groups[newest_with_free(groups)].free > 0,
        forall|j: int| newest_with_free(groups) < j < groups.len() ==> (#[trigger] groups[j]).free == 0,
    decreases groups.len(),
{
    if groups.len() > 0 {
        let rest = groups.drop_last();
        lemma_newest_with_free(rest);
        assert forall|j: int| newest_with_free(groups) < j < groups.len() implies (
        #[trigger] groups[j]).free == 0 by {
            if j < rest.len() {
                assert(rest[j] == groups[j]);
            }
        }
    }
}

/// An acquire always finds a free buffer: below the low watermark the pool
/// grows first, and the low watermark is never zero.
pub proof fn lemma_replenished(pool: PoolView)
    requires
        pool.wf(),
    ensures
        pool.replenished().wf(),
        pool.replenished().free_frames() >= 2,
        pool.replenished().outstanding() == pool.outstanding(),
        pool.replenished().groups.len() >= pool.groups.len(),
        forall|g: int|
            0 <= g < pool.groups.len() ==> pool.replenished().groups[g] == pool.groups[g],
{
    let counted = PoolView { acquire_count: pool.acquire_count + 1, ..pool };
    let ready = pool.replenished();
    if counted.free_frames() < counted.low_watermark() {
        let step = counted.current_step();
        lemma_sums_push(counted.groups, GroupView::fresh(step));
        assert forall|g: int| 0 <= g < ready.groups.len() implies (#[trigger] ready.groups[g]).balanced()
            && 0 < ready.groups[g].size <= LARGE_STEP by {
            if g < counted.groups.len() {
                assert(ready.groups[g] == pool.groups[g]);
            }
        }
        assert(LARGE_STEP * (pool.shrink_count) + step >= 0) by (nonlinear_arith)
            requires
                pool.shrink_count >= 0,
                step >= 0,
        ;
    }
}

/// An acquire keeps the invariant, lends exactly one buffer, and takes it from
/// the newest group that has one.
pub proof fn lemma_acquire(pool: PoolView)
    requires
        pool.wf(),
    ensures
        pool.after_acquire().wf(),
        0 <= pool.acquire_group() < pool.after_acquire().groups.len(),
        pool.after_acquire().lends_from(pool.acquire_group()),
        pool.after_acquire().outstanding() == pool.outstanding() + 1,
        pool.after_acquire().free_frames() + 1 == pool.replenished().free_frames(),
        pool.after_acquire().total_frames == pool.replenished().total_frames,
        pool.after_acquire().acquire_count == pool.acquire_count + 1,
        pool.after_acquire().shrink_count == pool.shrink_count,
{
    lemma_replenished(pool);
    let ready = pool.replenished();
    lemma_newest_with_free(ready.groups);
    let g = newest_with_free(ready.groups);
    let after = pool.after_acquire();
    lemma_sums_update(ready.groups, g, ready.groups[g].lend());
    assert(ready.groups[g].balanced());
    assert forall|k: int| 0 <= k < after.groups.len() implies (#[trigger] after.groups[k]).balanced()
        && 0 < after.groups[k].size <= LARGE_STEP by {
        if k != g {
            assert(after.groups[k] == ready.groups[k]);
        }
    }
}

/// A buffer that comes back to the group that lent it keeps the invariant:
/// one loan less, one free buffer more.
pub proof fn lemma_returned(pool: PoolView, group_idx: int)
    requires
        pool.wf(),
        pool.lends_from(group_idx),
    ensures
        pool.returned(group_idx).wf(),
        pool.returned(group_idx).outstanding() + 1 == pool.outstanding(),
        pool.returned(group_idx).free_frames() == pool.free_frames() + 1,
        pool.returned(group_idx).groups[group_idx].free == pool.groups[group_idx].free + 1,
{
    let back = pool.returned(group_idx);
    lemma_sums_update(pool.groups, group_idx, pool.groups[group_idx].take_back());
    assert(pool.groups[group_idx].balanced());
    assert forall|k: int| 0 <= k < back.groups.len() implies (#[trigger] back.groups[k]).balanced()
        && 0 < back.groups[k].size <= LARGE_STEP by {
        if k != group_idx {
            assert(back.groups[k] == pool.groups[k]);
        }
    }
}

/// The shrink rule keeps the invariant and touches no group but a fully free
/// newest one, which it may give up.
pub proof fn lemma_settled(pool: PoolView)
    requires
        pool.wf(),
    ensures
        pool.settled().wf(),
        pool.settled().outstanding() == pool.outstanding(),
        pool.settled().groups.len() <= pool.groups.len(),
        forall|g: int|
            0 <= g < pool.settled().groups.len() ==> pool.settled().groups[g] == pool.groups[g],
        pool.settled().total_frames - pool.settled().free_frames() == pool.total_frames
            - pool.free_frames(),
{
    if pool.can_shrink() && pool.release_streak + 1 >= SHRINK_RELEASE_STREAK {
        let rest = pool.groups.drop_last();
        assert forall|g: int| 0 <= g < rest.len() implies (#[trigger] rest[g]).balanced() && 0
            < rest[g].size <= LARGE_STEP by {
            assert(rest[g] == pool.groups[g]);
        }
        assert(rest[0] == pool.groups[0]);
        lemma_tail_sizes(rest);
        assert(LARGE_STEP * (pool.shrink_count + 1) == LARGE_STEP * pool.shrink_count
            + LARGE_STEP) by (nonlinear_arith);
    }
}

/// A shrink never gives up a group that has a buffer lent out: such a group
/// is still there after a release, with the same loans, whatever group the
/// release went to.
pub proof fn lemma_shrink_spares_loans(pool: PoolView, group_idx: int, lender: int)
    requires
        pool.wf(),
        pool.lends_from(group_idx),
        pool.returned(group_idx).lends_from(lender),
    ensures
        pool.after_release(group_idx).lends_from(lender),
        pool.after_release(group_idx).groups[lender] == pool.returned(group_idx).groups[lender],
{
    lemma_returned(pool, group_idx);
    lemma_settled(pool.returned(group_idx));
    let back = pool.returned(group_idx);
    if back.can_shrink() && back.release_streak + 1 >= SHRINK_RELEASE_STREAK {
        assert(back.groups.last().borrowed == 0);
        assert(lender != back.groups.len() - 1);
        assert(back.groups.drop_last()[lender] == back.groups[lender]);
    }
}

/// A release of a loan keeps the invariant, takes one loan back, and leaves
/// the group it came from with one more free buffer, unless the pool gave that
/// group up in the same step.
pub proof fn lemma_release(pool: PoolView, group_idx: int)
    requires
        pool.wf(),
        pool.lends_from(group_idx),
    ensures
        pool.after_release(group_idx).wf(),
        pool.after_release(group_idx).outstanding() + 1 == pool.outstanding(),
        pool.after_release(group_idx).total_frames - pool.after_release(group_idx).free_frames()
            == pool.total_frames - pool.free_frames() - 1,
        group_idx < pool.after_release(group_idx).groups.len() ==> pool.after_release(
            group_idx,
        ).groups[group_idx].free == pool.groups[group_idx].free + 1,
        pool.after_release(group_idx).acquire_count == pool.acquire_count,
{
    lemma_returned(pool, group_idx);
    lemma_settled(pool.returned(group_idx));
}

/// Groups that begin with one of the initial size hold at least that many
/// buffers in all.
pub proof fn lemma_tail_sizes(groups: Seq<GroupView>)
    requires
        groups.len() >= 1,
    ensures
        sum_size(groups) >= groups[0].size,
    decreases groups.len(),
{
    if groups.len() > 1 {
        assert(groups.drop_last()[0] == groups[0]);
        lemma_tail_sizes(groups.drop_last());
    } else {
        assert(groups.drop_last().len() == 0);
    }
}

/// Any number of acquires keeps the invariant and lends that many buffers.
pub proof fn lemma_acquires(pool: PoolView, n: nat)
    requires
        pool.wf(),
    ensures
        pool.after_acquires(n).wf(),
        pool.after_acquires(n).outstanding() == pool.outstanding() + n,
        pool.after_acquires(n).acquire_count == pool.acquire_count + n,
    decreases n,
{
    if n > 0 {
        lemma_acquires(pool, (n - 1) as nat);
        lemma_acquire(pool.after_acquires((n - 1) as nat));
    }
}

/// Any run of releases, each to a group that has a buffer lent out, keeps the
/// invariant and takes that many loans back. The buffers that are neither free
/// nor lent out stay none: the gap between all buffers and the free ones
/// shrinks by one with each release.
pub proof fn lemma_releases(pool: PoolView, drops: Seq<int>)
    requires
        pool.wf(),
        pool.releases_valid(drops),
    ensures
        pool.after_releases(drops).wf(),
        pool.after_releases(drops).outstanding() + drops.len() == pool.outstanding(),
        pool.after_releases(drops).total_frames - pool.after_releases(drops).free_frames()
            == pool.total_frames - pool.free_frames() - drops.len(),
    decreases drops.len(),
{
    if drops.len() > 0 {
        lemma_release(pool, drops[0]);
        lemma_releases(pool.after_release(drops[0]), drops.drop_first());
    }
}

/// In a pool that keeps its invariant, the free buffers are all buffers but
/// those lent out.
pub proof fn lemma_free_is_total_less_outstanding(pool: PoolView)
    requires
        pool.wf(),
    ensures
        pool.free_frames() + pool.outstanding() == pool.total_frames,
{
    lemma_sums_balanced(pool.groups);
}

/// After `n` acquires and then `n` releases of loans, in any order, as many
/// buffers are lent out as before, the pool still has at least its initial
/// buffers, and the number of free buffers has changed by exactly as much as
/// the pool has grown or shrunk: where the pool has its old size, it has its
/// old number of free buffers.
pub proof fn lemma_acquires_then_releases(pool: PoolView, n: nat, drops: Seq<int>)
    requires
        pool.wf(),
        drops.len() == n,
        pool.after_acquires(n).releases_valid(drops),
    ensures
        ({
            let end = pool.after_acquires(n).after_releases(drops);
            &&& end.wf()
            &&& end.outstanding() == pool.outstanding()
            &&& end.total_frames >= INITIAL_FRAMES
            &&& end.free_frames() - pool.free_frames() == end.total_frames - pool.total_frames
            &&& end.total_frames == pool.total_frames ==> end.free_frames() == pool.free_frames()
            &&& pool.outstanding() == 0 ==> end.free_frames() == end.total_frames
        }),
{
    lemma_acquires(pool, n);
    lemma_releases(pool.after_acquires(n), drops);
    lemma_free_is_total_less_outstanding(pool);
    lemma_free_is_total_less_outstanding(pool.after_acquires(n).after_releases(drops));
}

/// A pool never holds fewer buffers than it has allocated minus what its
/// shrinks gave up, and one that never shrank holds every buffer it allocated.
pub proof fn lemma_allocations_bounded(pool: PoolView)
    requires
        pool.wf(),
    ensures
        pool.total_frames <= pool.alloc_count <= pool.total_frames + LARGE_STEP * pool.shrink_count,
        pool.shrink_count == 0 ==> pool.alloc_count == pool.total_frames,
{
}

/// The pool of a steady stream: its first group lends one buffer, nothing else
/// has happened but `acquires` acquires.
pub open spec fn streaming(frame_bytes: nat, acquires: nat) -> PoolView {
    PoolView {
        groups: seq![GroupView { size: INITIAL_FRAMES as nat, borrowed: 1, free: 2 }],
        acquire_count: acquires,
        ..PoolView::fresh(frame_bytes)
    }
}

/// A steady stream reuses its buffers. Rent a buffer from a new pool; then, for
/// each frame, rent one and give back the one of the frame before. However
/// many frames pass, the pool neither grows nor shrinks and allocates nothing
/// beyond its initial buffers.
pub proof fn lemma_steady_stream(frame_bytes: nat, rounds: nat)
    ensures
        PoolView::fresh(frame_bytes).after_acquire() == streaming(frame_bytes, 1),
        PoolView::fresh(frame_bytes).acquire_group() == 0,
        PoolView::fresh(frame_bytes).after_acquire().after_stream(0, rounds) == streaming(
            frame_bytes,
            1 + rounds,
        ),
        streaming(frame_bytes, 1 + rounds).alloc_count <= streaming(
            frame_bytes,
            1 + rounds,
        ).total_frames + 1,
        streaming(frame_bytes, 1 + rounds).alloc_count == INITIAL_FRAMES,
{
    let fresh = PoolView::fresh(frame_bytes);
    lemma_single_group_sums(fresh.groups);
    assert(fresh.replenished().groups =~= fresh.groups);
    assert(fresh.after_acquire().groups =~= streaming(frame_bytes, 1).groups);
    lemma_stream_rounds(frame_bytes, 1, rounds);
}

/// The sums over a single group are its own counts.
proof fn lemma_single_group_sums(groups: Seq<GroupView>)
    requires
        groups.len() == 1,
    ensures
        sum_free(groups) == groups[0].free,
        sum_size(groups) == groups[0].size,
        sum_borrowed(groups) == groups[0].borrowed,
        newest_with_free(groups) == (if groups[0].free > 0 {
            0int
        } else {
            -1int
        }),
{
    let rest = groups.drop_last();
    assert(rest.len() == 0);
    assert(sum_free(rest) == 0);
    assert(sum_size(rest) == 0);
    assert(sum_borrowed(rest) == 0);
    assert(newest_with_free(rest) == -1);
}

/// One frame of a steady stream leaves the pool as it found it, but for the
/// count of acquires.
proof fn lemma_stream_rounds(frame_bytes: nat, acquires: nat, rounds: nat)
    ensures
        streaming(frame_bytes, acquires).after_stream(0, rounds) == streaming(
            frame_bytes,
            acquires + rounds,
        ),
    decreases rounds,
{
    if rounds > 0 {
        let pool = streaming(frame_bytes, acquires);
        lemma_single_group_sums(pool.groups);
        let ready = pool.replenished();
        assert(ready.groups =~= pool.groups);
        let lent = pool.after_acquire();
        assert(lent.groups =~= seq![GroupView { size: INITIAL_FRAMES as nat, borrowed: 2, free: 1 }]);
        let back = lent.returned(0);
        assert(back.groups =~= pool.groups);
        lemma_single_group_sums(back.groups);
        assert(!back.can_shrink());
        assert(lent.after_release(0) == streaming(frame_bytes, acquires + 1));
        lemma_stream_rounds(frame_bytes, acquires + 1, (rounds - 1) as nat);
    }
}

} // verus!
