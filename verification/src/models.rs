//! The records that the checkpoint store keeps.

use crate::sync::{text_of, Checkpoint, CheckpointView};
use crate::time::Timestamp;
use vstd::prelude::*;

verus! {

/// The channel of a guild in which notifications are posted.
#[derive(Debug, Clone, Copy, PartialEq, Eq, Structural)]
pub struct Channel {
    pub guild_id: i64,
    pub channel_id: i64,
}

/// A subscription: one watched account, the member of a guild who watches
/// it, and how far its feed has been synchronised. `end_cursor` is `None`
/// as long as no activity of the account has been seen.
#[derive(Debug, Clone, PartialEq, Eq)]
pub struct Subscriber {
    pub id: i32,
    pub user_id: i64,
    pub guild_id: i64,
    pub annict_name: String,
    pub end_cursor: Option<String>,
    pub last_activity_date: Option<Timestamp>,
}

impl Subscriber {
    /// The checkpoint that the subscription holds.
    pub open spec fn checkpoint_view(&self) -> CheckpointView {
        CheckpointView { cursor: text_of(self.end_cursor), time: self.last_activity_date }
    }

    /// The checkpoint from which the next run for this subscription starts.
    pub fn checkpoint(&self) -> (checkpoint: Checkpoint)
        ensures
            checkpoint@ == self.checkpoint_view(),
    {
        Checkpoint { cursor: self.end_cursor.clone(), time: self.last_activity_date }
    }
}

/// A subscription that is not stored yet.
#[derive(Debug, Clone, Copy, PartialEq, Eq)]
pub struct NewSubscriber<'a, 'b> {
    pub user_id: i64,
    pub guild_id: i64,
    pub annict_name: &'a str,
    pub end_cursor: Option<&'b str>,
    pub last_activity_date: Option<Timestamp>,
}

impl<'a, 'b> NewSubscriber<'a, 'b> {
    /// The record of a member who starts to watch an account, with the
    /// account's first checkpoint. The two identifiers are stored as signed
    /// numbers of the same 64 bits.
    pub fn new(user_id: u64, guild_id: u64, annict_name: &'a str, checkpoint: &'b Checkpoint) -> (r:
        Self)
        ensures
            r.user_id == user_id as i64,
            r.guild_id == guild_id as i64,
            r.annict_name@ == annict_name@,
            match r.end_cursor {
                Some(c) => Some(c@),
                None => None,
            } == checkpoint@.cursor,
            r.last_activity_date == checkpoint.time,
    {
        let end_cursor = match &checkpoint.cursor {
            Some(c) => Some(c.as_str()),
            None => None,
        };
        NewSubscriber {
            user_id: #[verifier::truncate]
            (user_id as i64),
            guild_id: #[verifier::truncate]
            (guild_id as i64),
            annict_name,
            end_cursor,
            last_activity_date: checkpoint.time,
        }
    }
}

} // verus!
