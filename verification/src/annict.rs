//! The feed's data model: what one query against the tracking service
//! answers, and how an answer is classified.

use crate::time::Timestamp;
use vstd::prelude::*;

verus! {

/// The season in which a work is broadcast.
#[derive(Debug, Clone, Copy, PartialEq, Eq, Structural)]
pub enum SeasonName {
    Autumn,
    Spring,
    Summer,
    Winter,
}

impl SeasonName {
    /// The name under which the season is shown.
    pub open spec fn label(self) -> Seq<char> {
        match self {
            SeasonName::Autumn => "秋"@,
            SeasonName::Spring => "春"@,
            SeasonName::Summer => "夏"@,
            SeasonName::Winter => "冬"@,
        }
    }

    pub fn to_string(&self) -> (s: String)
        ensures
            s@ == self.label(),
    {
        match self {
            SeasonName::Autumn => String::from_str("秋"),
            SeasonName::Spring => String::from_str("春"),
            SeasonName::Summer => String::from_str("夏"),
            SeasonName::Winter => String::from_str("冬"),
        }
    }
}

/// How far a user has come with a work.
#[derive(Debug, Clone, Copy, PartialEq, Eq, Structural)]
pub enum StatusState {
    NoState,
    OnHold,
    StopWatching,
    WannaWatch,
    Watched,
    Watching,
}

impl StatusState {
    /// The colour of the state as `0xRRGGBB`.
    pub open spec fn colour_code(self) -> u32 {
        match self {
            StatusState::NoState => 0x4dd4ac,
            StatusState::OnHold => 0xdc2626,
            StatusState::StopWatching => 0x52525b,
            StatusState::WannaWatch => 0xea580c,
            StatusState::Watched => 0x16a34a,
            StatusState::Watching => 0x0284c7,
        }
    }

    /// The name under which the state is shown.
    pub open spec fn label(self) -> Seq<char> {
        match self {
            StatusState::NoState => "未選択"@,
            StatusState::OnHold => "一時中断"@,
            StatusState::StopWatching => "視聴中止"@,
            StatusState::WannaWatch => "見たい"@,
            StatusState::Watched => "見た"@,
            StatusState::Watching => "見てる"@,
        }
    }

    /// The colour in which a notification of this state is framed.
    pub fn to_colour(&self) -> (code: u32)
        ensures
            code == self.colour_code(),
            code <= 0xff_ffff,
    {
        match self {
            StatusState::NoState => 0x4dd4ac,
            StatusState::OnHold => 0xdc2626,
            StatusState::StopWatching => 0x52525b,
            StatusState::WannaWatch => 0xea580c,
            StatusState::Watched => 0x16a34a,
            StatusState::Watching => 0x0284c7,
        }
    }

    pub fn to_string(&self) -> (s: String)
        ensures
            s@ == self.label(),
    {
        match self {
            StatusState::NoState => String::from_str("未選択"),
            StatusState::OnHold => String::from_str("一時中断"),
            StatusState::StopWatching => String::from_str("視聴中止"),
            StatusState::WannaWatch => String::from_str("見たい"),
            StatusState::Watched => String::from_str("見た"),
            StatusState::Watching => String::from_str("見てる"),
        }
    }
}

#[derive(Debug, Clone, PartialEq, Eq)]
pub struct Work {
    pub title: String,
}

/// Several episode records made in one go.
#[derive(Debug, Clone, PartialEq, Eq)]
pub struct MultipleRecord {
    pub records: RecordConnection,
    pub created_at: Timestamp,
    pub work: Work,
}

#[derive(Debug, Clone, PartialEq, Eq)]
pub struct RecordConnection {
    pub edges: Vec<RecordEdge>,
}

#[derive(Debug, Clone, PartialEq, Eq)]
pub struct RecordEdge {
    pub node: Record,
}

/// The record of one episode.
#[derive(Debug, Clone, PartialEq, Eq)]
pub struct Record {
    pub work: Work,
    pub created_at: Timestamp,
    pub comment: Option<String>,
    pub episode: Episode,
    pub rating_state: Option<RatingState>,
}

#[derive(Debug, Clone, Copy, PartialEq, Eq, Structural)]
pub enum RatingState {
    Average,
    Bad,
    Good,
    Great,
}

impl RatingState {
    /// The colour of the rating as `0xRRGGBB`.
    pub open spec fn colour_code(self) -> u32 {
        match self {
            RatingState::Average => 0xff6d00,
            RatingState::Bad => 0x757575,
            RatingState::Good => 0x00c853,
            RatingState::Great => 0x00b0ff,
        }
    }

    /// The name under which the rating is shown.
    pub open spec fn label(self) -> Seq<char> {
        match self {
            RatingState::Average => "普通"@,
            RatingState::Bad => "良くない"@,
            RatingState::Good => "良い"@,
            RatingState::Great => "とても良い"@,
        }
    }

    /// The colour in which a notification with this rating is framed.
    pub fn to_colour(&self) -> (code: u32)
        ensures
            code == self.colour_code(),
            code <= 0xff_ffff,
    {
        match self {
            RatingState::Average => 0xff6d00,
            RatingState::Bad => 0x757575,
            RatingState::Good => 0x00c853,
            RatingState::Great => 0x00b0ff,
        }
    }

    pub fn to_string(&self) -> (s: String)
        ensures
            s@ == self.label(),
    {
        match self {
            RatingState::Average => String::from_str("普通"),
            RatingState::Bad => String::from_str("良くない"),
            RatingState::Good => String::from_str("良い"),
            RatingState::Great => String::from_str("とても良い"),
        }
    }
}

#[derive(Debug, Clone, PartialEq, Eq)]
pub struct Episode {
    pub number: Option<i32>,
    pub number_text: Option<String>,
    pub title: Option<String>,
}

/// The review of a whole work.
#[derive(Debug, Clone, PartialEq, Eq)]
pub struct Review {
    pub work: Work,
    pub created_at: Timestamp,
    pub body: String,
    pub rating_overall_state: Option<RatingState>,
    pub rating_animation_state: Option<RatingState>,
    pub rating_character_state: Option<RatingState>,
    pub rating_story_state: Option<RatingState>,
    pub rating_music_state: Option<RatingState>,
}

/// A change of the state in which a user holds a work.
#[derive(Debug, Clone, PartialEq, Eq)]
pub struct Status {
    pub work: Work,
    pub created_at: Timestamp,
    pub state: StatusState,
}

/// One entry of an activity feed.
#[derive(Debug, Clone, PartialEq, Eq)]
pub enum ActivityItem {
    MultipleRecord(MultipleRecord),
    Record(Record),
    Review(Review),
    Status(Status),
}

impl ActivityItem {
    /// When the activity took place.
    pub open spec fn spec_created_at(&self) -> Timestamp {
        match self {
            ActivityItem::MultipleRecord(r) => r.created_at,
            ActivityItem::Record(r) => r.created_at,
            ActivityItem::Review(r) => r.created_at,
            ActivityItem::Status(r) => r.created_at,
        }
    }

    /// When the activity took place.
    #[verifier::when_used_as_spec(spec_created_at)]
    pub fn created_at(&self) -> (t: Timestamp)
        ensures
            t == self.spec_created_at(),
    {
        match self {
            ActivityItem::MultipleRecord(r) => r.created_at,
            ActivityItem::Record(r) => r.created_at,
            ActivityItem::Review(r) => r.created_at,
            ActivityItem::Status(r) => r.created_at,
        }
    }
}

/// An activity and the cursor at which the feed holds it.
#[derive(Debug, Clone, PartialEq, Eq)]
pub struct ActivityEdge {
    pub item: ActivityItem,
    pub cursor: String,
}

/// One page of a feed: its entries in feed order, oldest first, and the
/// cursors of its first and last entry.
#[derive(Debug, Clone, PartialEq, Eq)]
pub struct ActivityConnection {
    pub edges: Vec<ActivityEdge>,
    pub page_info: PageInfo,
}

#[derive(Debug, Clone, PartialEq, Eq)]
pub struct PageInfo {
    pub start_cursor: Option<String>,
    pub end_cursor: Option<String>,
}

#[derive(Debug, Clone, PartialEq, Eq)]
pub struct User {
    pub username: String,
    pub name: String,
    pub avatar_url: Option<String>,
}

#[derive(Debug, Clone, PartialEq, Eq)]
pub struct UserWithActivities {
    pub user: User,
    pub activities: ActivityConnection,
}

/// The answer to a query for one account: absent where the service knows no
/// such account.
#[derive(Debug, Clone, PartialEq, Eq)]
pub struct UserQuery<T> {
    pub user: Option<T>,
}

/// An error that the service reports in place of data.
#[derive(Debug, Clone, PartialEq, Eq)]
pub struct Error {
    pub message: String,
    pub locations: Option<Vec<Location>>,
}

#[derive(Debug, Clone, Copy, PartialEq, Eq, Structural)]
pub struct Location {
    pub line: i32,
    pub column: i32,
}

/// What the service sends back: the data asked for, or its errors.
#[derive(Debug, Clone, PartialEq, Eq)]
pub enum Response<T> {
    Data(T),
    Errors(Vec<Error>),
}

/// Why a page of a feed could not be had.
#[derive(Debug, Clone, PartialEq, Eq)]
pub enum FeedError {
    /// The service knows no account of the name asked for.
    AccountNotFound,
    /// The request did not get through, or no answer came back.
    TransportError(String),
    /// The answer is not of the shape that the data model describes.
    ProtocolError(String),
    /// The service answered with errors of its own in place of data.
    RemoteGraphError(Vec<Error>),
}

/// What comes of one query against the feed: what the service sent back, or
/// why nothing of the expected shape came back.
pub type FeedAnswer = Result<Response<UserQuery<UserWithActivities>>, FeedError>;

/// What an answer amounts to: the page of activities of the account asked
/// for, or the reason why there is none.
pub open spec fn page_result(answer: FeedAnswer) -> Result<ActivityConnection, FeedError> {
    match answer {
        Ok(Response::Data(UserQuery { user: Some(user) })) => Ok(user.activities),
        Ok(Response::Data(UserQuery { user: None })) => Err(FeedError::AccountNotFound),
        Ok(Response::Errors(errors)) => Err(FeedError::RemoteGraphError(errors)),
        Err(e) => Err(e),
    }
}

/// Classifies an answer: its page of activities where it holds the account,
/// `AccountNotFound` where the account is absent, `RemoteGraphError` with
/// the service's errors where it holds those, and the failure of the query
/// where there was one.
pub fn page_of(answer: FeedAnswer) -> (r: Result<ActivityConnection, FeedError>)
    ensures
        r == page_result(answer),
{
    match answer {
        Ok(Response::Data(query)) => match query.user {
            Some(user) => Ok(user.activities),
            None => Err(FeedError::AccountNotFound),
        },
        Ok(Response::Errors(errors)) => Err(FeedError::RemoteGraphError(errors)),
        Err(e) => Err(e),
    }
}

/// The value that an optional field holds, for output that shows the value
/// itself in place of `Some(..)` around it.
pub fn opt_fmt<T>(value: &Option<T>) -> (inner: &T)
    requires
        value.is_some(),
    ensures
        *inner == value.unwrap(),
{
    value.as_ref().unwrap()
}

} // verus!
