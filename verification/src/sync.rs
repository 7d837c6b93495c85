//! The synchronisation engine.
//!
//! One run starts from a subscription's checkpoint and the forward page, the
//! page of everything behind the checkpoint's cursor. Where the checkpoint
//! holds a cursor, the run then walks backward from the start of that page,
//! one item per query, and collects what is newer than the checkpoint's time:
//! items that a deletion in the feed moved to cursors before the checkpoint.
//! The engine decides; its caller queries the feed and hands the answers in.

use crate::annict::{
    page_of, page_result, ActivityConnection, ActivityEdge, ActivityItem, FeedAnswer, FeedError,
};
use crate::time::Timestamp;
use vstd::prelude::*;

verus! {

/// How far a subscription has been synchronised: the cursor to resume from
/// and the time of the last activity that an earlier run returned.
#[derive(Debug, Clone, PartialEq, Eq)]
pub struct Checkpoint {
    pub cursor: Option<String>,
    pub time: Option<Timestamp>,
}

pub struct CheckpointView {
    pub cursor: Option<Seq<char>>,
    pub time: Option<Timestamp>,
}

/// The text of an optional cursor.
pub open spec fn text_of(cursor: Option<String>) -> Option<Seq<char>> {
    match cursor {
        Some(c) => Some(c@),
        None => None,
    }
}

impl View for Checkpoint {
    type V = CheckpointView;

    open spec fn view(&self) -> CheckpointView {
        CheckpointView { cursor: text_of(self.cursor), time: self.time }
    }
}

pub struct EdgeView {
    pub item: ActivityItem,
    pub cursor: Seq<char>,
}

impl View for ActivityEdge {
    type V = EdgeView;

    open spec fn view(&self) -> EdgeView {
        EdgeView { item: self.item, cursor: self.cursor@ }
    }
}

pub struct PageView {
    pub edges: Seq<EdgeView>,
    pub start_cursor: Option<Seq<char>>,
    pub end_cursor: Option<Seq<char>>,
}

impl PageView {
    /// The activities of the page, in the page's order.
    pub open spec fn items(self) -> Seq<ActivityItem> {
        Seq::new(self.edges.len(), |i: int| self.edges[i].item)
    }
}

impl View for ActivityConnection {
    type V = PageView;

    open spec fn view(&self) -> PageView {
        PageView {
            edges: Seq::new(self.edges@.len(), |i: int| self.edges@[i]@),
            start_cursor: text_of(self.page_info.start_cursor),
            end_cursor: text_of(self.page_info.end_cursor),
        }
    }
}

/// What a run returns: the new activities, oldest first, and the checkpoint
/// to store for the next run.
#[derive(Debug, Clone, PartialEq, Eq)]
pub struct Outcome {
    pub activities: Vec<ActivityItem>,
    pub checkpoint: Checkpoint,
}

pub struct OutcomeView {
    pub activities: Seq<ActivityItem>,
    pub checkpoint: CheckpointView,
}

impl View for Outcome {
    type V = OutcomeView;

    open spec fn view(&self) -> OutcomeView {
        OutcomeView { activities: self.activities@, checkpoint: self.checkpoint@ }
    }
}

/// A backward walk in progress.
#[derive(Debug, Clone, PartialEq, Eq)]
pub struct Walk {
    /// The time of the checkpoint: the walk stops at the first item that is
    /// not later.
    pub since: Timestamp,
    /// The cursor of the checkpoint that the run started from.
    pub prior_cursor: String,
    /// The cursor for the new checkpoint, as far as one is known.
    pub end_cursor: Option<String>,
    /// The cursor before which the next query asks.
    pub before: String,
    /// What the walk has collected, in the order of the walk: newest first.
    pub walked: Vec<ActivityItem>,
    /// The activities of the forward page.
    pub forward: Vec<ActivityItem>,
}

pub struct WalkView {
    pub since: Timestamp,
    pub prior_cursor: Seq<char>,
    pub end_cursor: Option<Seq<char>>,
    pub before: Seq<char>,
    /// What the walk has collected, oldest first.
    pub collected: Seq<ActivityItem>,
    pub forward: Seq<ActivityItem>,
}

/// `items` in the opposite order.
pub open spec fn turned_round(items: Seq<ActivityItem>) -> Seq<ActivityItem> {
    Seq::new(items.len(), |i: int| items[items.len() - 1 - i])
}

impl View for Walk {
    type V = WalkView;

    open spec fn view(&self) -> WalkView {
        WalkView {
            since: self.since,
            prior_cursor: self.prior_cursor@,
            end_cursor: text_of(self.end_cursor),
            before: self.before@,
            collected: turned_round(self.walked@),
            forward: self.forward@,
        }
    }
}

/// What the caller of the engine does next.
#[derive(Debug, Clone, PartialEq, Eq)]
pub enum Step {
    /// Query the feed for the one item before `before` of the walk, and hand
    /// the answer to [`advance`] or [`continue_run`].
    Fetch(Walk),
    /// The run is complete: store the checkpoint, deliver the activities.
    Done(Outcome),
}

pub enum StepView {
    Fetch(WalkView),
    Done(OutcomeView),
}

impl View for Step {
    type V = StepView;

    open spec fn view(&self) -> StepView {
        match self {
            Step::Fetch(walk) => StepView::Fetch(walk@),
            Step::Done(outcome) => StepView::Done(outcome@),
        }
    }
}

/// Why a run ended without an outcome. No checkpoint comes with it: what is
/// stored stays as it was.
#[derive(Debug, Clone, PartialEq, Eq)]
pub enum SyncError {
    /// The feed did not answer with a page.
    Feed(FeedError),
    /// The checkpoint holds a cursor and no time: no run stores such a one
    /// after it has returned an activity.
    CorruptCheckpoint,
}

/// The outcome of a run that started from `prior`, learned `end_cursor` as
/// the cursor of the feed's end, and found `activities`: the checkpoint's
/// cursor is `end_cursor`, or stays where none was learned; its time is that
/// of the last activity, or stays where there is none.
pub open spec fn conclude_model(
    prior: CheckpointView,
    end_cursor: Option<Seq<char>>,
    activities: Seq<ActivityItem>,
) -> OutcomeView {
    OutcomeView {
        activities,
        checkpoint: CheckpointView {
            cursor: if end_cursor is Some {
                end_cursor
            } else {
                prior.cursor
            },
            time: if activities.len() > 0 {
                Some(activities.last().created_at())
            } else {
                prior.time
            },
        },
    }
}

/// The outcome of a walk that ends where it stands: what it collected, then
/// the forward page.
pub open spec fn finish_model(walk: WalkView) -> OutcomeView {
    conclude_model(
        CheckpointView { cursor: Some(walk.prior_cursor), time: Some(walk.since) },
        walk.end_cursor,
        walk.collected + walk.forward,
    )
}

/// Whether a run walks backward from the forward page: the checkpoint holds
/// a cursor, and the page is not empty and names the cursor of its start.
pub open spec fn walks_back(checkpoint: CheckpointView, forward: PageView) -> bool {
    checkpoint.cursor is Some && forward.edges.len() > 0 && forward.start_cursor is Some
}

/// The first step of a run, from the checkpoint and the forward page.
pub open spec fn begin_model(checkpoint: CheckpointView, forward: PageView) -> Result<
    StepView,
    SyncError,
> {
    if checkpoint.cursor is None {
        Ok(StepView::Done(conclude_model(checkpoint, forward.end_cursor, forward.items())))
    } else if checkpoint.time is None {
        Err(SyncError::CorruptCheckpoint)
    } else if walks_back(checkpoint, forward) {
        Ok(
            StepView::Fetch(
                WalkView {
                    since: checkpoint.time->0,
                    prior_cursor: checkpoint.cursor->0,
                    end_cursor: forward.end_cursor,
                    before: forward.start_cursor->0,
                    collected: Seq::empty(),
                    forward: forward.items(),
                },
            ),
        )
    } else {
        Ok(StepView::Done(conclude_model(checkpoint, forward.end_cursor, forward.items())))
    }
}

/// The step after the feed has answered a walk's query with `page`. An empty
/// page ends the walk. Otherwise the page's first item decides: its cursor
/// becomes the cursor for the new checkpoint where none is known yet; an
/// item not later than the checkpoint's time ends the walk and is left out;
/// a later one is put in front of what was collected, and the walk goes on
/// before its cursor.
pub open spec fn advance_model(walk: WalkView, page: PageView) -> StepView {
    if page.edges.len() == 0 {
        StepView::Done(finish_model(walk))
    } else {
        let edge = page.edges[0];
        let end_cursor = if walk.end_cursor is Some {
            walk.end_cursor
        } else {
            Some(edge.cursor)
        };
        if edge.item.created_at().is_le(walk.since) {
            StepView::Done(finish_model(WalkView { end_cursor, ..walk }))
        } else {
            StepView::Fetch(
                WalkView {
                    end_cursor,
                    before: edge.cursor,
                    collected: seq![edge.item] + walk.collected,
                    ..walk
                },
            )
        }
    }
}

/// A query against the feed of one account: for the last `last` entries,
/// or all where `last` is absent, of those behind the cursor `after` and
/// before the cursor `before`.
#[derive(Debug, Clone, PartialEq, Eq)]
pub struct FeedQuery {
    pub username: String,
    pub last: Option<i32>,
    pub after: Option<String>,
    pub before: Option<String>,
}

pub struct FeedQueryView {
    pub username: Seq<char>,
    pub last: Option<i32>,
    pub after: Option<Seq<char>>,
    pub before: Option<Seq<char>>,
}

impl View for FeedQuery {
    type V = FeedQueryView;

    open spec fn view(&self) -> FeedQueryView {
        FeedQueryView {
            username: self.username@,
            last: self.last,
            after: text_of(self.after),
            before: text_of(self.before),
        }
    }
}

/// The query whose answer registers an account: for its most recent entry.
pub open spec fn registration_query_model(username: Seq<char>) -> FeedQueryView {
    FeedQueryView { username, last: Some(1), after: None, before: None }
}

/// The forward query of a run: for everything behind the checkpoint's
/// cursor.
pub open spec fn forward_query_model(
    username: Seq<char>,
    checkpoint: CheckpointView,
) -> FeedQueryView {
    FeedQueryView { username, last: None, after: checkpoint.cursor, before: None }
}

/// The next query of a walk: for the one entry before the walk's cursor.
pub open spec fn backward_query_model(username: Seq<char>, walk: WalkView) -> FeedQueryView {
    FeedQueryView { username, last: Some(1), after: None, before: Some(walk.before) }
}

/// The query whose answer goes to [`register`].
pub fn registration_query(username: &str) -> (query: FeedQuery)
    ensures
        query@ == registration_query_model(username@),
{
    FeedQuery { username: String::from_str(username), last: Some(1), after: None, before: None }
}

/// The query whose answer goes to [`open_run`].
pub fn forward_query(username: &str, checkpoint: &Checkpoint) -> (query: FeedQuery)
    ensures
        query@ == forward_query_model(username@, checkpoint@),
{
    FeedQuery {
        username: String::from_str(username),
        last: None,
        after: checkpoint.cursor.clone(),
        before: None,
    }
}

/// The query whose answer goes to [`continue_run`].
pub fn backward_query(username: &str, walk: &Walk) -> (query: FeedQuery)
    ensures
        query@ == backward_query_model(username@, walk@),
{
    FeedQuery {
        username: String::from_str(username),
        last: Some(1),
        after: None,
        before: Some(walk.before.clone()),
    }
}

/// The outcome of a run that stands at `step` while the feed answers the
/// walk's queries with `answers`, one after the other. There is none where
/// the answers end before the walk does.
pub open spec fn run_model(step: StepView, answers: Seq<PageView>) -> Option<OutcomeView>
    decreases answers.len(),
{
    match step {
        StepView::Done(outcome) => Some(outcome),
        StepView::Fetch(walk) => if answers.len() == 0 {
            None
        } else {
            run_model(advance_model(walk, answers[0]), answers.drop_first())
        },
    }
}

/// The outcome of a whole run: from the checkpoint, the forward page and the
/// feed's answers to the walk's queries. There is none where the checkpoint
/// is rejected or the answers end before the walk does.
pub open spec fn sync_model(
    checkpoint: CheckpointView,
    forward: PageView,
    answers: Seq<PageView>,
) -> Option<OutcomeView> {
    match begin_model(checkpoint, forward) {
        Ok(step) => run_model(step, answers),
        Err(_) => None,
    }
}

/// The activities of a page's entries, in their order.
fn into_items(edges: Vec<ActivityEdge>) -> (items: Vec<ActivityItem>)
    ensures
        items@.len() == edges@.len(),
        forall|i: int| 0 <= i < edges@.len() ==> items@[i] == edges@[i].item,
{
    let ghost given = edges@;
    let mut edges = edges;
    let mut reversed: Vec<ActivityItem> = Vec::new();
    while edges.len() > 0
        invariant
            edges@.len() + reversed@.len() == given.len(),
            edges@ == given.subrange(0, edges@.len() as int),
            forall|j: int|
                0 <= j < reversed@.len() ==> reversed@[j] == given[given.len() - 1 - j].item,
        decreases edges@.len(),
    {
        let edge = edges.pop().unwrap();
        reversed.push(edge.item);
    }
    let ghost turned = reversed@;
    let mut items: Vec<ActivityItem> = Vec::new();
    while reversed.len() > 0
        invariant
            turned.len() == given.len(),
            reversed@.len() + items@.len() == turned.len(),
            reversed@ == turned.subrange(0, reversed@.len() as int),
            forall|j: int| 0 <= j < turned.len() ==> turned[j] == given[given.len() - 1 - j].item,
            forall|j: int| 0 <= j < items@.len() ==> items@[j] == given[j].item,
        decreases reversed@.len(),
    {
        let item = reversed.pop().unwrap();
        items.push(item);
    }
    items
}

/// Ends a run: see [`conclude_model`].
fn conclude(prior: Checkpoint, end_cursor: Option<String>, activities: Vec<ActivityItem>) -> (outcome:
    Outcome)
    ensures
        outcome@ == conclude_model(prior@, text_of(end_cursor), activities@),
{
    let cursor = match end_cursor {
        Some(c) => Some(c),
        None => prior.cursor,
    };
    let n = activities.len();
    let time = if n > 0 {
        Some(activities[n - 1].created_at())
    } else {
        prior.time
    };
    Outcome { activities, checkpoint: Checkpoint { cursor, time } }
}

/// Ends a walk where it stands: see [`finish_model`].
fn finish(walk: Walk) -> (outcome: Outcome)
    ensures
        outcome@ == finish_model(walk@),
{
    let Walk { since, prior_cursor, end_cursor, before: _, walked, forward } = walk;
    let ghost given = walked@;
    let mut walked = walked;
    let mut activities: Vec<ActivityItem> = Vec::new();
    while walked.len() > 0
        invariant
            walked@.len() + activities@.len() == given.len(),
            walked@ == given.subrange(0, walked@.len() as int),
            forall|j: int|
                0 <= j < activities@.len() ==> activities@[j] == given[given.len() - 1 - j],
        decreases walked@.len(),
    {
        let item = walked.pop().unwrap();
        activities.push(item);
    }
    assert(activities@ =~= turned_round(given));
    let mut forward = forward;
    activities.append(&mut forward);
    conclude(Checkpoint { cursor: Some(prior_cursor), time: Some(since) }, end_cursor, activities)
}

/// Takes the first step of a run, from the subscription's checkpoint and the
/// forward page: the page that the feed answers to a query of unbounded size
/// for what lies behind the checkpoint's cursor.
///
/// Without a cursor in the checkpoint the page is the whole result. With a
/// cursor and no time the checkpoint is rejected. Otherwise a walk starts
/// before the page's start cursor, or the run is done where the page is
/// empty or names no start.
pub fn begin(checkpoint: Checkpoint, forward: ActivityConnection) -> (r: Result<Step, SyncError>)
    ensures
        match begin_model(checkpoint@, forward@) {
            Ok(step) => r is Ok && r->Ok_0@ == step,
            Err(e) => r == Err::<Step, SyncError>(e),
        },
{
    let ghost page = forward@;
    let ActivityConnection { edges, page_info } = forward;
    let n = edges.len();
    let items = into_items(edges);
    assert(items@ =~= page.items());
    match checkpoint.cursor {
        None => Ok(Step::Done(conclude(checkpoint, page_info.end_cursor, items))),
        Some(prior_cursor) => match checkpoint.time {
            None => Err(SyncError::CorruptCheckpoint),
            Some(since) => match page_info.start_cursor {
                Some(before) if n > 0 => {
                    let walk = Walk {
                        since,
                        prior_cursor,
                        end_cursor: page_info.end_cursor,
                        before,
                        walked: Vec::new(),
                        forward: items,
                    };
                    assert(walk@.collected =~= Seq::<ActivityItem>::empty());
                    Ok(Step::Fetch(walk))
                },
                _ => Ok(
                    Step::Done(
                        conclude(
                            Checkpoint { cursor: Some(prior_cursor), time: Some(since) },
                            page_info.end_cursor,
                            items,
                        ),
                    ),
                ),
            },
        },
    }
}

/// Takes the step after the feed has answered the walk's query, a query of
/// size one for what lies before `walk.before`, with `page`.
pub fn advance(walk: Walk, page: ActivityConnection) -> (step: Step)
    ensures
        step@ == advance_model(walk@, page@),
{
    let mut edges = page.edges;
    if edges.len() == 0 {
        return Step::Done(finish(walk));
    }
    let edge = edges.remove(0);
    let Walk { since, prior_cursor, end_cursor, before: _, walked, forward } = walk;
    let end_cursor = match end_cursor {
        Some(c) => Some(c),
        None => Some(edge.cursor.clone()),
    };
    if edge.item.created_at().le(&since) {
        Step::Done(
            finish(Walk { since, prior_cursor, end_cursor, before: edge.cursor, walked, forward }),
        )
    } else {
        let mut walked = walked;
        walked.push(edge.item);
        assert(turned_round(walked@) =~= seq![edge.item] + turned_round(walk.walked@));
        Step::Fetch(Walk { since, prior_cursor, end_cursor, before: edge.cursor, walked, forward })
    }
}

/// The first step of a run, from the checkpoint and the feed's answer to the
/// forward query: the answer's failure, or the step that its page leads to.
pub open spec fn open_run_model(checkpoint: CheckpointView, answer: FeedAnswer) -> Result<
    StepView,
    SyncError,
> {
    match page_result(answer) {
        Ok(page) => begin_model(checkpoint, page@),
        Err(e) => Err(SyncError::Feed(e)),
    }
}

/// The step after the feed's answer to a walk's query: the answer's failure,
/// or the step that its page leads to.
pub open spec fn continue_run_model(walk: WalkView, answer: FeedAnswer) -> Result<
    StepView,
    SyncError,
> {
    match page_result(answer) {
        Ok(page) => Ok(advance_model(walk, page@)),
        Err(e) => Err(SyncError::Feed(e)),
    }
}

/// Starts a run from the subscription's checkpoint and the feed's answer to
/// the forward query. An answer without the account fails the run with
/// `AccountNotFound`, one with errors of the service with
/// `RemoteGraphError`, a query that failed with its failure; a page goes to
/// [`begin`]. A run that fails leaves no checkpoint to store.
pub fn open_run(checkpoint: Checkpoint, answer: FeedAnswer) -> (r: Result<Step, SyncError>)
    ensures
        match open_run_model(checkpoint@, answer) {
            Ok(step) => r is Ok && r->Ok_0@ == step,
            Err(e) => r == Err::<Step, SyncError>(e),
        },
{
    match page_of(answer) {
        Ok(page) => begin(checkpoint, page),
        Err(e) => Err(SyncError::Feed(e)),
    }
}

/// Goes on with a walk from the feed's answer to its query. An answer
/// without the account or with errors of the service, and a query that
/// failed, fail the run, and what the walk has collected is dropped; a page
/// goes to [`advance`].
pub fn continue_run(walk: Walk, answer: FeedAnswer) -> (r: Result<Step, SyncError>)
    ensures
        match continue_run_model(walk@, answer) {
            Ok(step) => r is Ok && r->Ok_0@ == step,
            Err(e) => r == Err::<Step, SyncError>(e),
        },
{
    match page_of(answer) {
        Ok(page) => Ok(advance(walk, page)),
        Err(e) => Err(SyncError::Feed(e)),
    }
}

/// The checkpoint of a newly watched account, from the page of its most
/// recent activity: the page's end cursor, and the time of its last item
/// where it has one.
pub open spec fn first_checkpoint(page: PageView) -> CheckpointView {
    CheckpointView {
        cursor: page.end_cursor,
        time: if page.edges.len() > 0 {
            Some(page.edges.last().item.created_at())
        } else {
            None
        },
    }
}

/// What registering an account gives, from the feed's answer to a query for
/// its most recent activity: no checkpoint where the account is absent, the
/// failure of any other answer without a page, else the first checkpoint.
pub open spec fn register_model(answer: FeedAnswer) -> Result<Option<CheckpointView>, FeedError> {
    match page_result(answer) {
        Ok(page) => Ok(Some(first_checkpoint(page@))),
        Err(FeedError::AccountNotFound) => Ok(None),
        Err(e) => Err(e),
    }
}

/// Builds the checkpoint of a newly watched account from the feed's answer
/// to a query of size one behind no cursor. That the account does not exist
/// is no failure: the result is then `Ok(None)`.
pub fn register(answer: FeedAnswer) -> (r: Result<Option<Checkpoint>, FeedError>)
    ensures
        match register_model(answer) {
            Ok(Some(checkpoint)) => r is Ok && r->Ok_0 is Some && r->Ok_0->0@ == checkpoint,
            Ok(None) => r == Ok::<Option<Checkpoint>, FeedError>(None),
            Err(e) => r == Err::<Option<Checkpoint>, FeedError>(e),
        },
{
    match page_of(answer) {
        Ok(page) => {
            let n = page.edges.len();
            let time = if n > 0 {
                Some(page.edges[n - 1].item.created_at())
            } else {
                None
            };
            Ok(Some(Checkpoint { cursor: page.page_info.end_cursor, time }))
        },
        Err(FeedError::AccountNotFound) => Ok(None),
        Err(e) => Err(e),
    }
}

} // verus!
