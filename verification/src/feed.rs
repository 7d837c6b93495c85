//! A feed at one moment, and a run of the engine against it.
//!
//! The feed is a list of entries, oldest first. A cursor names the place of
//! an entry in the list, not the entry: when an entry is deleted, those
//! behind it move up by one place and are found at other cursors than
//! before.

use crate::annict::ActivityItem;
use crate::sync::{
    advance_model, begin_model, CheckpointView, EdgeView, OutcomeView, PageView, StepView, WalkView,
};
use crate::time::Timestamp;
use vstd::prelude::*;

verus! {

/// No two entries of the feed have the same cursor.
pub open spec fn distinct_cursors(feed: Seq<EdgeView>) -> bool {
    forall|i: int, j: int|
        0 <= i < j < feed.len() ==> (#[trigger] feed[i]).cursor != (#[trigger] feed[j]).cursor
}

/// No entry of the feed is later than one behind it.
pub open spec fn in_time_order(feed: Seq<EdgeView>) -> bool {
    forall|i: int, j: int|
        0 <= i <= j < feed.len() ==> (#[trigger] feed[i]).item.created_at().is_le(
            (#[trigger] feed[j]).item.created_at(),
        )
}

/// The entry at place `place` has the cursor `cursor`.
pub open spec fn is_at(feed: Seq<EdgeView>, cursor: Seq<char>, place: int) -> bool {
    0 <= place < feed.len() && feed[place].cursor == cursor
}

/// The page of `edges`, with the cursors of its first and last entry.
pub open spec fn page_of_edges(edges: Seq<EdgeView>) -> PageView {
    PageView {
        edges,
        start_cursor: if edges.len() > 0 {
            Some(edges.first().cursor)
        } else {
            None
        },
        end_cursor: if edges.len() > 0 {
            Some(edges.last().cursor)
        } else {
            None
        },
    }
}

/// What the feed answers to a query of unbounded size behind `cursor`: the
/// entries behind the place that the cursor names, all entries where there
/// is no cursor, and none where the cursor names no place.
pub open spec fn answer_after(feed: Seq<EdgeView>, cursor: Option<Seq<char>>) -> PageView {
    match cursor {
        None => page_of_edges(feed),
        Some(c) => if exists|p: int| is_at(feed, c, p) {
            let p = choose|p: int| is_at(feed, c, p);
            page_of_edges(feed.subrange(p + 1, feed.len() as int))
        } else {
            page_of_edges(Seq::empty())
        },
    }
}

/// What the feed answers to a query of size one before `cursor`: the entry
/// one place before the one that the cursor names, and nothing where that
/// is the first place or the cursor names none.
pub open spec fn answer_before(feed: Seq<EdgeView>, cursor: Seq<char>) -> PageView {
    if exists|p: int| is_at(feed, cursor, p) {
        let p = choose|p: int| is_at(feed, cursor, p);
        if p > 0 {
            page_of_edges(seq![feed[p - 1]])
        } else {
            page_of_edges(Seq::empty())
        }
    } else {
        page_of_edges(Seq::empty())
    }
}

/// The outcome of a run that stands at `step` and asks the feed at most
/// `queries` times more; none where the walk would go on after that.
pub open spec fn walk_on(feed: Seq<EdgeView>, step: StepView, queries: nat) -> Option<OutcomeView>
    decreases queries,
{
    match step {
        StepView::Done(outcome) => Some(outcome),
        StepView::Fetch(walk) => if queries == 0 {
            None
        } else {
            walk_on(
                feed,
                advance_model(walk, answer_before(feed, walk.before)),
                (queries - 1) as nat,
            )
        },
    }
}

/// The outcome of a whole run against the feed, from the forward query on,
/// with at most `queries` queries of the walk; none where the checkpoint is
/// rejected or the walk would go on after that.
pub open spec fn sync_on(feed: Seq<EdgeView>, checkpoint: CheckpointView, queries: nat) -> Option<
    OutcomeView,
> {
    match begin_model(checkpoint, answer_after(feed, checkpoint.cursor)) {
        Ok(step) => walk_on(feed, step, queries),
        Err(_) => None,
    }
}

/// Where the entries begin that lie before place `end` without a break and
/// are all later than `since`.
pub open spec fn run_start(feed: Seq<EdgeView>, end: int, since: Timestamp) -> int
    decreases end,
{
    if end <= 0 {
        0
    } else if feed[end - 1].item.created_at().is_le(since) {
        end
    } else {
        run_start(feed, end - 1, since)
    }
}

/// The activities of the entries from place `from` up to place `to`.
pub open spec fn activities_between(feed: Seq<EdgeView>, from: int, to: int) -> Seq<ActivityItem> {
    Seq::new((to - from) as nat, |i: int| feed[from + i].item)
}

proof fn lemma_place(feed: Seq<EdgeView>, place: int)
    requires
        distinct_cursors(feed),
        0 <= place < feed.len(),
    ensures
        exists|p: int| is_at(feed, feed[place].cursor, p),
        (choose|p: int| is_at(feed, feed[place].cursor, p)) == place,
{
    assert(is_at(feed, feed[place].cursor, place));
    let p = choose|p: int| is_at(feed, feed[place].cursor, p);
    if p < place {
        assert(feed[p].cursor != feed[place].cursor);
    } else if place < p {
        assert(feed[place].cursor != feed[p].cursor);
    }
}

proof fn lemma_run_start(feed: Seq<EdgeView>, end: int, since: Timestamp)
    requires
        0 <= end <= feed.len(),
    ensures
        0 <= run_start(feed, end, since) <= end,
        forall|i: int|
            run_start(feed, end, since) <= i < end ==> since.is_lt(
                (#[trigger] feed[i]).item.created_at(),
            ),
        run_start(feed, end, since) > 0 ==> feed[run_start(feed, end, since) - 1].item.created_at().is_le(
            since,
        ),
    decreases end,
{
    if end > 0 && !feed[end - 1].item.created_at().is_le(since) {
        lemma_run_start(feed, end - 1, since);
    }
}

proof fn lemma_walk_on(feed: Seq<EdgeView>, walk: WalkView, place: int, queries: nat)
    requires
        distinct_cursors(feed),
        0 <= place < feed.len(),
        walk.before == feed[place].cursor,
    ensures
        queries > place - run_start(feed, place, walk.since) <==> walk_on(
            feed,
            StepView::Fetch(walk),
            queries,
        ) is Some,
        walk_on(feed, StepView::Fetch(walk), queries) is Some ==> ({
            let outcome = walk_on(feed, StepView::Fetch(walk), queries)->0;
            &&& outcome.activities == activities_between(
                feed,
                run_start(feed, place, walk.since),
                place,
            ) + walk.collected + walk.forward
            &&& walk.end_cursor is Some ==> outcome.checkpoint.cursor == walk.end_cursor
            &&& outcome.checkpoint.time == if outcome.activities.len() > 0 {
                Some(outcome.activities.last().created_at())
            } else {
                Some(walk.since)
            }
        }),
    decreases place,
{
    reveal_with_fuel(walk_on, 2);
    lemma_place(feed, place);
    lemma_run_start(feed, place, walk.since);
    let start = run_start(feed, place, walk.since);
    if queries > 0 {
        if place == 0 || feed[place - 1].item.created_at().is_le(walk.since) {
            assert(activities_between(feed, start, place) + walk.collected =~= walk.collected);
        } else {
            let next = advance_model(walk, answer_before(feed, walk.before))->Fetch_0;
            lemma_walk_on(feed, next, place - 1, (queries - 1) as nat);
            assert(activities_between(feed, start, place - 1) + next.collected
                =~= activities_between(feed, start, place) + walk.collected);
        }
    }
}

/// The place from which on a run from `checkpoint` returns the feed: the
/// first place without a cursor in the checkpoint; with one, the end of the
/// feed where the cursor names its last place or none, and else the start
/// of the entries that lie before the forward page without a break and are
/// all later than the checkpoint's time.
pub open spec fn result_start(feed: Seq<EdgeView>, checkpoint: CheckpointView) -> int {
    match checkpoint.cursor {
        None => 0,
        Some(c) => if exists|p: int| is_at(feed, c, p) {
            let p = choose|p: int| is_at(feed, c, p);
            if p + 1 < feed.len() {
                run_start(feed, p + 1, checkpoint.time->0)
            } else {
                feed.len() as int
            }
        } else {
            feed.len() as int
        },
    }
}

/// Every run against a feed returns the feed from some place on, the place
/// that [`result_start`] gives. A run that returns anything leaves its
/// checkpoint at the feed's last entry.
pub proof fn run_on_a_feed_returns_its_end(
    feed: Seq<EdgeView>,
    checkpoint: CheckpointView,
    queries: nat,
)
    requires
        distinct_cursors(feed),
        sync_on(feed, checkpoint, queries) is Some,
    ensures
        ({
            let outcome = sync_on(feed, checkpoint, queries)->0;
            let start = result_start(feed, checkpoint);
            &&& 0 <= start <= feed.len()
            &&& outcome.activities == activities_between(feed, start, feed.len() as int)
            &&& start < feed.len() ==> outcome.checkpoint == CheckpointView {
                cursor: Some(feed.last().cursor),
                time: Some(feed.last().item.created_at()),
            }
            &&& start == feed.len() ==> outcome.checkpoint == checkpoint
            &&& checkpoint.cursor is Some ==> forall|i: int|
                start <= i < feed.len() && i <= (choose|p: int| is_at(feed, checkpoint.cursor->0, p)) ==> (checkpoint.time->0).is_lt(
                    (#[trigger] feed[i]).item.created_at(),
                )
        }),
{
    let end = feed.len() as int;
    let start = result_start(feed, checkpoint);
    let forward = answer_after(feed, checkpoint.cursor);
    let outcome = sync_on(feed, checkpoint, queries)->0;
    assert(forward.items() =~= activities_between(feed, end - forward.edges.len(), end));
    match checkpoint.cursor {
        None => {
            assert(forward.edges == feed);
        },
        Some(c) => {
            if exists|p: int| is_at(feed, c, p) {
                let p = choose|p: int| is_at(feed, c, p);
                if p + 1 < end {
                    let since = checkpoint.time->0;
                    lemma_run_start(feed, p + 1, since);
                    assert(forward.edges == feed.subrange(p + 1, end));
                    assert(forward.edges.first() == feed[p + 1]);
                    assert(forward.edges.last() == feed.last());
                    let walk = begin_model(checkpoint, forward)->Ok_0->Fetch_0;
                    lemma_walk_on(feed, walk, p + 1, queries);
                    assert(outcome.activities =~= activities_between(feed, start, end)) by {
                        assert(forward.items() =~= activities_between(feed, p + 1, end));
                    }
                    assert(outcome.activities.last() == feed.last().item);
                } else {
                    assert(forward.edges =~= Seq::<EdgeView>::empty());
                    assert(outcome.activities =~= activities_between(feed, start, end));
                }
            } else {
                assert(outcome.activities =~= activities_between(feed, start, end));
            }
        },
    }
}

/// Gap recovery against a feed. Let the checkpoint name a place of the feed
/// that is not its last, so that the forward page is not empty. Then the
/// run ends, after one query of the walk for each entry that it collects and
/// one more, and returns the feed from some place on: the forward page, and
/// before it the entries that, without a break, are later than the
/// checkpoint's time. Its checkpoint is at the feed's last entry. Where the
/// feed is in the order of time, no entry that is later than the
/// checkpoint's time lies before that place: the result holds every such
/// entry, and each of them once, and is in the order of time itself.
pub proof fn run_on_a_feed_recovers_the_gap(
    feed: Seq<EdgeView>,
    checkpoint: CheckpointView,
    place: int,
    queries: nat,
)
    requires
        distinct_cursors(feed),
        0 <= place,
        place + 1 < feed.len(),
        checkpoint.cursor == Some(feed[place].cursor),
        checkpoint.time is Some,
        queries > place + 1 - run_start(feed, place + 1, checkpoint.time->0),
    ensures
        ({
            let start = run_start(feed, place + 1, checkpoint.time->0);
            let outcome = sync_on(feed, checkpoint, queries);
            &&& 0 <= start <= place + 1
            &&& outcome is Some
            &&& outcome->0.activities == activities_between(feed, start, feed.len() as int)
            &&& outcome->0.checkpoint.cursor == Some(feed.last().cursor)
            &&& outcome->0.checkpoint.time == Some(feed.last().item.created_at())
            &&& start > 0 ==> feed[start - 1].item.created_at().is_le(checkpoint.time->0)
            &&& in_time_order(feed) ==> forall|i: int|
                0 <= i < feed.len() && (checkpoint.time->0).is_lt(
                    (#[trigger] feed[i]).item.created_at(),
                ) ==> start <= i
            &&& in_time_order(feed) ==> forall|i: int, j: int|
                0 <= i <= j < outcome->0.activities.len() ==> (
                #[trigger] outcome->0.activities[i]).created_at().is_le(
                    (#[trigger] outcome->0.activities[j]).created_at(),
                )
        }),
{
    let since = checkpoint.time->0;
    let end = feed.len() as int;
    let start = run_start(feed, place + 1, since);
    lemma_place(feed, place);
    lemma_run_start(feed, place + 1, since);
    let forward = answer_after(feed, checkpoint.cursor);
    assert(forward.edges == feed.subrange(place + 1, end));
    assert(forward.edges.first() == feed[place + 1]);
    assert(forward.edges.last() == feed.last());
    let walk = begin_model(checkpoint, forward)->Ok_0->Fetch_0;
    lemma_walk_on(feed, walk, place + 1, queries);
    let outcome = sync_on(feed, checkpoint, queries)->0;
    assert(outcome.activities =~= activities_between(feed, start, end)) by {
        assert(forward.items() =~= activities_between(feed, place + 1, end));
    }
    assert(outcome.activities.last() == feed.last().item);
    if in_time_order(feed) {
        assert forall|i: int|
            0 <= i < feed.len() && since.is_lt((#[trigger] feed[i]).item.created_at()) implies start
            <= i by {
            if i < start {
                assert(feed[i].item.created_at().is_le(feed[start - 1].item.created_at()));
            }
        }
        assert forall|i: int, j: int| 0 <= i <= j < outcome.activities.len() implies (
        #[trigger] outcome.activities[i]).created_at().is_le(
            (#[trigger] outcome.activities[j]).created_at(),
        ) by {
            assert(outcome.activities[i] == feed[start + i].item);
            assert(outcome.activities[j] == feed[start + j].item);
        }
    }
}

/// The two feeds have the same cursor at every place that both have.
pub open spec fn same_cursors(first: Seq<EdgeView>, second: Seq<EdgeView>) -> bool {
    forall|i: int|
        0 <= i < first.len() && i < second.len() ==> (#[trigger] first[i]).cursor
            == second[i].cursor
}

/// No duplication. Let a run against the feed as it is at one time be
/// followed by a run, from the checkpoint that the first one left, against
/// the feed as it is later. Let cursors name places, the first feed be in
/// the order of time, and whatever the second feed holds at a place that
/// the first one did not have be later than all that the first one held,
/// as it is where the feed has only lost entries and gained later ones in
/// between. Then no activity is returned by both runs.
pub proof fn runs_on_a_feed_share_no_activity(
    first: Seq<EdgeView>,
    second: Seq<EdgeView>,
    checkpoint: CheckpointView,
    queries: nat,
    next_queries: nat,
)
    requires
        distinct_cursors(first),
        distinct_cursors(second),
        same_cursors(first, second),
        in_time_order(first),
        forall|i: int|
            first.len() <= i < second.len() ==> first.last().item.created_at().is_lt(
                (#[trigger] second[i]).item.created_at(),
            ),
        sync_on(first, checkpoint, queries) is Some,
        sync_on(second, sync_on(first, checkpoint, queries)->0.checkpoint, next_queries) is Some,
    ensures
        ({
            let earlier = sync_on(first, checkpoint, queries)->0;
            let later = sync_on(second, earlier.checkpoint, next_queries)->0;
            forall|i: int, j: int|
                0 <= i < earlier.activities.len() && 0 <= j < later.activities.len()
                    ==> #[trigger] earlier.activities[i] != #[trigger] later.activities[j]
        }),
{
    let earlier = sync_on(first, checkpoint, queries)->0;
    let later = sync_on(second, earlier.checkpoint, next_queries)->0;
    run_on_a_feed_returns_its_end(first, checkpoint, queries);
    run_on_a_feed_returns_its_end(second, earlier.checkpoint, next_queries);
    let start = result_start(first, checkpoint);
    let next_start = result_start(second, earlier.checkpoint);
    if start < first.len() && next_start < second.len() {
        let last = first.len() - 1;
        let cursor = first[last].cursor;
        let since = first[last].item.created_at();
        assert(earlier.checkpoint.cursor == Some(cursor));
        if last < second.len() {
            assert(first[last].cursor == second[last].cursor);
            lemma_place(second, last);
        } else {
            assert forall|p: int| !is_at(second, cursor, p) by {
                if 0 <= p < second.len() {
                    assert(first[p].cursor == second[p].cursor);
                    assert(first[p].cursor != first[last].cursor);
                }
            }
        }
        assert forall|i: int, j: int|
            0 <= i < earlier.activities.len() && 0 <= j < later.activities.len()
            implies #[trigger] earlier.activities[i] != #[trigger] later.activities[j] by {
            assert(earlier.activities[i] == first[start + i].item);
            assert(first[start + i].item.created_at().is_le(first[last].item.created_at()));
            assert(later.activities[j] == second[next_start + j].item);
            assert(since.is_lt(second[next_start + j].item.created_at()));
        }
    }
}

} // verus!
