//! What the sweep over the subscriptions does when the chat service cannot
//! find the member to whom a subscription belongs.

use crate::text::{lowered, lowered_is};
use vstd::prelude::*;

verus! {

/// What the chat service reports of a member it could not look up.
#[derive(Debug, Clone, Copy, PartialEq, Eq, Structural)]
pub enum LookupFailure {
    /// The user is no member of the guild.
    UnknownMember,
    /// There is no such user.
    UnknownUser,
    /// There is no such guild.
    UnknownGuild,
    /// Anything else.
    Other,
}

/// How the sweep goes on.
#[derive(Debug, Clone, Copy, PartialEq, Eq, Structural)]
pub enum Sweep {
    /// Leave this subscription out and go on with the next one.
    NextSubscriber,
    /// Leave the rest of this channel's guild out and go on with the next
    /// channel.
    NextChannel,
    /// End the sweep with the failure.
    Abort,
}

impl LookupFailure {
    /// The failure that a message of the chat service stands for, whatever
    /// the case of its letters.
    pub open spec fn of(message: Seq<char>) -> LookupFailure {
        let message = lowered(message);
        if message == "unknown member"@ {
            LookupFailure::UnknownMember
        } else if message == "unknown user"@ {
            LookupFailure::UnknownUser
        } else if message == "unknown guild"@ {
            LookupFailure::UnknownGuild
        } else {
            LookupFailure::Other
        }
    }

    /// How the sweep goes on after the failure: a missing member or user
    /// costs the subscription its turn, a missing guild the channel, and
    /// anything else ends the sweep.
    pub open spec fn sweep(self) -> Sweep {
        match self {
            LookupFailure::UnknownMember => Sweep::NextSubscriber,
            LookupFailure::UnknownUser => Sweep::NextSubscriber,
            LookupFailure::UnknownGuild => Sweep::NextChannel,
            LookupFailure::Other => Sweep::Abort,
        }
    }

    /// Classifies the message of a failed lookup.
    pub fn classify(message: &str) -> (failure: LookupFailure)
        ensures
            failure == LookupFailure::of(message@),
    {
        if lowered_is(message, "unknown member") {
            LookupFailure::UnknownMember
        } else if lowered_is(message, "unknown user") {
            LookupFailure::UnknownUser
        } else if lowered_is(message, "unknown guild") {
            LookupFailure::UnknownGuild
        } else {
            LookupFailure::Other
        }
    }

    /// How the sweep goes on after the failure.
    pub fn next(&self) -> (sweep: Sweep)
        ensures
            sweep == self.sweep(),
    {
        match self {
            LookupFailure::UnknownMember => Sweep::NextSubscriber,
            LookupFailure::UnknownUser => Sweep::NextSubscriber,
            LookupFailure::UnknownGuild => Sweep::NextChannel,
            LookupFailure::Other => Sweep::Abort,
        }
    }
}

} // verus!
