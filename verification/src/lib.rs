//! Incremental synchronisation of per-account activity feeds, and what is
//! posted about the activities found.
//!
//! The feed is paginated by cursors and mostly grows at its end, but items may
//! be deleted between polls, which moves the remaining items to other cursors.
//! The engine in [`sync`] computes, from a checkpoint and the pages the feed
//! answers with, the activities that are new since the checkpoint and the
//! checkpoint to resume from. It never talks to the feed itself: it says
//! which query comes next and takes the answer.
//!
//! - [`annict`]: the feed's data model, and how an answer is classified.
//! - [`sync`]: checkpoints, registration, and the steps of a run.
//! - [`guarantees`]: what holds of every run, stated over pages and answers.
//! - [`feed`]: a feed at one moment, and what holds of runs against it.
//! - [`models`]: the records of the checkpoint store.
//! - [`time`]: instants and their order.
//! - [`interval`]: the configured time between two sweeps.
//! - [`polling`]: how a sweep goes on after a failed lookup.
//! - [`notice`], [`flags`], [`commands`]: the messages, the kinds of
//!   activity a channel is notified of, and the answers to commands.
//! - [`text`]: comparing text without regard to case.

pub mod annict;
pub mod commands;
pub mod feed;
pub mod flags;
pub mod guarantees;
pub mod interval;
pub mod models;
pub mod notice;
pub mod polling;
pub mod sync;
pub mod text;
pub mod time;
