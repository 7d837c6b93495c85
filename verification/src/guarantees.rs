//! What holds of every run of the engine, and of two runs in a row.

use crate::annict::{ActivityItem, FeedError, Response, UserQuery};
use crate::sync::{
    advance_model, begin_model, continue_run_model, open_run_model, run_model, sync_model,
    CheckpointView, EdgeView, PageView, StepView, SyncError, WalkView,
};
use crate::time::{not_before, Timestamp};
use vstd::prelude::*;

verus! {

/// Every one of `items` is later than `since`.
pub open spec fn all_later(items: Seq<ActivityItem>, since: Timestamp) -> bool {
    forall|i: int| 0 <= i < items.len() ==> since.is_lt(#[trigger] items[i].created_at())
}

/// None of `items` is later than the last of them.
pub open spec fn latest_is_last(items: Seq<ActivityItem>) -> bool {
    forall|i: int|
        0 <= i < items.len() ==> (#[trigger] items[i].created_at()).is_le(
            items.last().created_at(),
        )
}

/// The activities of the first `k` of `older`, in the opposite order.
pub open spec fn turned(older: Seq<EdgeView>, k: int) -> Seq<ActivityItem> {
    Seq::new(k as nat, |i: int| older[k - 1 - i].item)
}

/// The time of a checkpoint that a run over `activities` leaves, where
/// `prior` was the time before.
pub open spec fn time_after(activities: Seq<ActivityItem>, prior: Option<Timestamp>) -> Option<
    Timestamp,
> {
    if activities.len() > 0 {
        Some(activities.last().created_at())
    } else {
        prior
    }
}

proof fn lemma_walk_extends(walk: WalkView, answers: Seq<PageView>)
    requires
        all_later(walk.collected, walk.since),
        run_model(StepView::Fetch(walk), answers) is Some,
    ensures
        ({
            let outcome = run_model(StepView::Fetch(walk), answers)->0;
            let gap = outcome.activities.len() - walk.forward.len();
            &&& gap >= walk.collected.len()
            &&& outcome.activities.subrange(gap, outcome.activities.len() as int) == walk.forward
            &&& all_later(outcome.activities.subrange(0, gap), walk.since)
            &&& outcome.checkpoint.time == time_after(outcome.activities, Some(walk.since))
        }),
    decreases answers.len(),
{
    reveal_with_fuel(run_model, 2);
    let page = answers[0];
    let merged = walk.collected + walk.forward;
    if page.edges.len() == 0 || page.edges[0].item.created_at().is_le(walk.since) {
        assert(merged.subrange(walk.collected.len() as int, merged.len() as int) =~= walk.forward);
        assert(merged.subrange(0, walk.collected.len() as int) =~= walk.collected);
    } else {
        let next = advance_model(walk, page)->Fetch_0;
        assert forall|i: int| 0 <= i < next.collected.len() implies walk.since.is_lt(
            #[trigger] next.collected[i].created_at(),
        ) by {
            if i > 0 {
                assert(next.collected[i] == walk.collected[i - 1]);
            }
        }
        lemma_walk_extends(next, answers.drop_first());
    }
}

/// A run from a checkpoint without a cursor returns the forward page's
/// activities as they are, in the page's order, and asks the feed nothing
/// more; its checkpoint holds the page's end cursor.
pub proof fn without_cursor_the_forward_page_is_the_result(
    checkpoint: CheckpointView,
    forward: PageView,
    answers: Seq<PageView>,
)
    requires
        checkpoint.cursor is None,
    ensures
        begin_model(checkpoint, forward) is Ok,
        begin_model(checkpoint, forward)->Ok_0 is Done,
        sync_model(checkpoint, forward, answers) is Some,
        sync_model(checkpoint, forward, answers)->0.activities == forward.items(),
        sync_model(checkpoint, forward, answers)->0.checkpoint.cursor == forward.end_cursor,
{
}

/// The result of a run from a checkpoint with a cursor ends with the forward
/// page's activities, and all that stands before them is later than the
/// checkpoint's time.
pub proof fn result_is_gap_then_forward_page(
    checkpoint: CheckpointView,
    forward: PageView,
    answers: Seq<PageView>,
)
    requires
        checkpoint.cursor is Some,
        sync_model(checkpoint, forward, answers) is Some,
    ensures
        checkpoint.time is Some,
        ({
            let outcome = sync_model(checkpoint, forward, answers)->0;
            let gap = outcome.activities.len() - forward.items().len();
            &&& gap >= 0
            &&& outcome.activities.subrange(gap, outcome.activities.len() as int)
                == forward.items()
            &&& all_later(outcome.activities.subrange(0, gap), checkpoint.time->0)
        }),
{
    let step = begin_model(checkpoint, forward)->Ok_0;
    match step {
        StepView::Fetch(walk) => {
            lemma_walk_extends(walk, answers);
        },
        StepView::Done(outcome) => {
            assert(outcome.activities.subrange(0, outcome.activities.len() as int)
                =~= forward.items());
        },
    }
}

/// The time of the checkpoint that a run leaves is that of the last activity
/// it returns, and the time of the checkpoint it started from where it
/// returns none. It is never earlier than the time it started from, as long
/// as the last activity of the forward page is not.
pub proof fn checkpoint_time_never_goes_back(
    checkpoint: CheckpointView,
    forward: PageView,
    answers: Seq<PageView>,
)
    requires
        sync_model(checkpoint, forward, answers) is Some,
    ensures
        ({
            let outcome = sync_model(checkpoint, forward, answers)->0;
            &&& outcome.checkpoint.time == time_after(outcome.activities, checkpoint.time)
            &&& (forward.edges.len() > 0 ==> not_before(
                Some(forward.edges.last().item.created_at()),
                checkpoint.time,
            )) ==> not_before(outcome.checkpoint.time, checkpoint.time)
        }),
{
    let outcome = sync_model(checkpoint, forward, answers)->0;
    if checkpoint.cursor is Some {
        result_is_gap_then_forward_page(checkpoint, forward, answers);
        let step = begin_model(checkpoint, forward)->Ok_0;
        if let StepView::Fetch(walk) = step {
            lemma_walk_extends(walk, answers);
        }
        let n = outcome.activities.len() as int;
        let gap = n - forward.items().len();
        if n > 0 {
            if forward.edges.len() > 0 {
                assert(outcome.activities.subrange(gap, n)[n - gap - 1] == outcome.activities[n
                    - 1]);
                assert(forward.items()[forward.edges.len() - 1] == forward.edges.last().item);
            } else {
                assert(outcome.activities.subrange(0, gap)[n - 1] == outcome.activities[n - 1]);
            }
        }
    }
}

/// Where the feed no longer knows the account, a run fails with
/// `AccountNotFound`, at its start and during its walk alike, whatever the
/// checkpoint and whatever the walk has collected. It ends without an
/// outcome, and so without a checkpoint that could replace the stored one.
pub proof fn missing_account_fails_the_run(checkpoint: CheckpointView, walk: WalkView)
    ensures
        open_run_model(checkpoint, Ok(Response::Data(UserQuery { user: None }))) == Err::<
            StepView,
            SyncError,
        >(SyncError::Feed(FeedError::AccountNotFound)),
        continue_run_model(walk, Ok(Response::Data(UserQuery { user: None }))) == Err::<
            StepView,
            SyncError,
        >(SyncError::Feed(FeedError::AccountNotFound)),
{
}

/// A checkpoint with a cursor has a time.
pub open spec fn is_sound(checkpoint: CheckpointView) -> bool {
    checkpoint.cursor is Some ==> checkpoint.time is Some
}

/// A page names the cursor of its end if and only if it is not empty.
pub open spec fn names_its_end(page: PageView) -> bool {
    page.end_cursor is Some <==> page.edges.len() > 0
}

/// As long as the forward page names its end exactly when it has one, a
/// sound checkpoint is never rejected, the checkpoint that a run leaves is
/// sound again, and it is without a cursor if and only if the run started
/// without one and found the feed empty.
pub proof fn sound_checkpoints_stay_sound(
    checkpoint: CheckpointView,
    forward: PageView,
    answers: Seq<PageView>,
)
    requires
        is_sound(checkpoint),
        names_its_end(forward),
    ensures
        begin_model(checkpoint, forward) is Ok,
        sync_model(checkpoint, forward, answers) is Some ==> is_sound(
            sync_model(checkpoint, forward, answers)->0.checkpoint,
        ),
        sync_model(checkpoint, forward, answers) is Some ==> (sync_model(
            checkpoint,
            forward,
            answers,
        )->0.checkpoint.cursor is None <==> checkpoint.cursor is None && forward.edges.len() == 0),
{
    if sync_model(checkpoint, forward, answers) is Some {
        checkpoint_time_never_goes_back(checkpoint, forward, answers);
        if let StepView::Fetch(walk) = begin_model(checkpoint, forward)->Ok_0 {
            lemma_walk_keeps_cursor(walk, answers);
        }
    }
}

proof fn lemma_walk_keeps_cursor(walk: WalkView, answers: Seq<PageView>)
    requires
        run_model(StepView::Fetch(walk), answers) is Some,
    ensures
        run_model(StepView::Fetch(walk), answers)->0.checkpoint.cursor is Some,
        walk.end_cursor is Some ==> run_model(
            StepView::Fetch(walk),
            answers,
        )->0.checkpoint.cursor == walk.end_cursor,
    decreases answers.len(),
{
    reveal_with_fuel(run_model, 2);
    if let StepView::Fetch(next) = advance_model(walk, answers[0]) {
        lemma_walk_keeps_cursor(next, answers.drop_first());
    }
}

proof fn lemma_walk_collects(walk: WalkView, older: Seq<EdgeView>, k: int, answers: Seq<PageView>)
    requires
        0 <= k <= older.len(),
        k < answers.len(),
        forall|i: int|
            0 <= i < k ==> (#[trigger] answers[i]).edges.len() > 0 && answers[i].edges[0]
                == older[i] && walk.since.is_lt(older[i].item.created_at()),
        k < older.len() ==> answers[k].edges.len() > 0 && answers[k].edges[0] == older[k]
            && older[k].item.created_at().is_le(walk.since),
        k == older.len() ==> answers[k].edges.len() == 0,
    ensures
        run_model(StepView::Fetch(walk), answers) is Some,
        run_model(StepView::Fetch(walk), answers) == run_model(
            StepView::Fetch(walk),
            answers.take(k + 1),
        ),
        run_model(StepView::Fetch(walk), answers)->0.activities == turned(older, k)
            + walk.collected + walk.forward,
    decreases k,
{
    reveal_with_fuel(run_model, 2);
    let short = answers.take(k + 1);
    assert(short[0] == answers[0]);
    if k == 0 {
        assert(turned(older, k) + walk.collected =~= walk.collected);
    } else {
        assert(answers[0].edges[0] == older[0] && walk.since.is_lt(older[0].item.created_at()));
        let next = advance_model(walk, answers[0])->Fetch_0;
        let rest = answers.drop_first();
        let tail = older.drop_first();
        assert forall|i: int| 0 <= i < k - 1 implies (#[trigger] rest[i]).edges.len() > 0
            && rest[i].edges[0] == tail[i] && next.since.is_lt(tail[i].item.created_at()) by {
            assert(rest[i] == answers[i + 1]);
            assert(tail[i] == older[i + 1]);
        }
        assert(rest[k - 1] == answers[k]);
        if k < older.len() {
            assert(tail[k - 1] == older[k]);
        }
        lemma_walk_collects(next, tail, k - 1, rest);
        assert(rest.take(k) =~= short.drop_first());
        assert(next.collected == seq![older[0].item] + walk.collected);
        assert(turned(tail, k - 1) + next.collected =~= turned(older, k) + walk.collected) by {
            assert forall|i: int| 0 <= i < k - 1 implies turned(tail, k - 1)[i] == turned(
                older,
                k,
            )[i] by {
                assert(tail[k - 2 - i] == older[k - 1 - i]);
            }
            assert(turned(older, k)[k - 1] == older[0].item);
        }
    }
}

/// Gap recovery. Let `older` be what the feed holds before the start of the
/// forward page, newest first, so that the feed answers the walk's queries
/// with its entries one by one, and with an empty page after the last. Let
/// the first `k` of them be later than the checkpoint's time, and the next
/// one, where there is one, not. Then the walk ends with the answer to its
/// query number `k + 1`, whatever the feed would answer after it, and the
/// result is those `k` activities, oldest first, followed by the forward
/// page. Where the feed is in the order of time, these are all of `older`
/// that are later than the checkpoint's time, each of them once.
pub proof fn walk_recovers_the_gap(
    checkpoint: CheckpointView,
    forward: PageView,
    older: Seq<EdgeView>,
    k: int,
    answers: Seq<PageView>,
)
    requires
        begin_model(checkpoint, forward) is Ok,
        begin_model(checkpoint, forward)->Ok_0 is Fetch,
        0 <= k <= older.len(),
        k < answers.len(),
        forall|i: int|
            0 <= i < answers.len() && i < older.len() ==> (#[trigger] answers[i]).edges.len() > 0
                && answers[i].edges[0] == older[i],
        older.len() < answers.len() ==> answers[older.len() as int].edges.len() == 0,
        forall|i: int|
            0 <= i < k ==> (checkpoint.time->0).is_lt(#[trigger] older[i].item.created_at()),
        k < older.len() ==> older[k].item.created_at().is_le(checkpoint.time->0),
    ensures
        sync_model(checkpoint, forward, answers) is Some,
        sync_model(checkpoint, forward, answers) == sync_model(
            checkpoint,
            forward,
            answers.take(k + 1),
        ),
        sync_model(checkpoint, forward, answers)->0.activities == turned(older, k)
            + forward.items(),
        (forall|i: int, j: int|
            0 <= i <= j < older.len() ==> (#[trigger] older[j].item.created_at()).is_le(
                #[trigger] older[i].item.created_at(),
            )) ==> (forall|i: int|
            0 <= i < older.len() && (checkpoint.time->0).is_lt(
                #[trigger] older[i].item.created_at(),
            ) ==> i < k && sync_model(checkpoint, forward, answers)->0.activities[k - 1 - i]
                == older[i].item),
{
    let walk = begin_model(checkpoint, forward)->Ok_0->Fetch_0;
    lemma_walk_collects(walk, older, k, answers);
    assert(turned(older, k) + walk.collected + walk.forward =~= turned(older, k)
        + forward.items());
}

/// Two runs in a row, the second from the checkpoint that the first left,
/// return no activity twice. This is stated of a feed that keeps the order
/// of time and hands out behind a cursor only what is new: no activity of
/// the first result is later than its last one, and the second forward page
/// holds none of them.
pub proof fn consecutive_runs_share_no_activity(
    checkpoint: CheckpointView,
    forward: PageView,
    answers: Seq<PageView>,
    next_forward: PageView,
    next_answers: Seq<PageView>,
)
    requires
        sync_model(checkpoint, forward, answers) is Some,
        sync_model(
            sync_model(checkpoint, forward, answers)->0.checkpoint,
            next_forward,
            next_answers,
        ) is Some,
        latest_is_last(sync_model(checkpoint, forward, answers)->0.activities),
        forall|i: int, j: int|
            0 <= i < sync_model(checkpoint, forward, answers)->0.activities.len() && 0 <= j
                < next_forward.edges.len() ==> #[trigger] sync_model(
                checkpoint,
                forward,
                answers,
            )->0.activities[i] != (#[trigger] next_forward.edges[j]).item,
    ensures
        ({
            let first = sync_model(checkpoint, forward, answers)->0;
            let second = sync_model(first.checkpoint, next_forward, next_answers)->0;
            forall|i: int, j: int|
                0 <= i < first.activities.len() && 0 <= j < second.activities.len()
                    ==> #[trigger] first.activities[i] != #[trigger] second.activities[j]
        }),
{
    let first = sync_model(checkpoint, forward, answers)->0;
    let second = sync_model(first.checkpoint, next_forward, next_answers)->0;
    checkpoint_time_never_goes_back(checkpoint, forward, answers);
    if first.activities.len() > 0 {
        let last = first.activities.last().created_at();
        assert(first.checkpoint.time == Some(last));
        if first.checkpoint.cursor is Some {
            result_is_gap_then_forward_page(first.checkpoint, next_forward, next_answers);
        }
        let n = second.activities.len() as int;
        let gap = n - next_forward.items().len();
        assert forall|i: int, j: int|
            0 <= i < first.activities.len() && 0 <= j < second.activities.len()
            implies #[trigger] first.activities[i] != #[trigger] second.activities[j] by {
            if first.checkpoint.cursor is Some && j < gap {
                assert(second.activities.subrange(0, gap)[j] == second.activities[j]);
                assert(last.is_lt(second.activities[j].created_at()));
                assert(first.activities[i].created_at().is_le(last));
            } else if first.checkpoint.cursor is Some {
                assert(second.activities.subrange(gap, n)[j - gap] == second.activities[j]);
                assert(next_forward.items()[j - gap] == next_forward.edges[j - gap].item);
            } else {
                assert(next_forward.items()[j] == next_forward.edges[j].item);
            }
        }
    }
}

} // verus!
