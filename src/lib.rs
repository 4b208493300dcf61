//! Recent-vote tracking for a lyrics feedback service.
//!
//! The heart of the crate is [`RecentVotesCache`], a bounded first-in,
//! first-out buffer of [`VoteEvent`]s. Around it stand the small decisions of
//! the feedback endpoints: which counter a vote moves, in what order a
//! feedback submission is stored, and the event that a vote leaves behind.

mod clock;
mod feedback;
mod recent_votes;
mod vote_event;

pub use feedback::{
    counter_update_statement, downvote_line, is_vote, record_vote, upvote_line, Feedback,
    DOWNVOTE_UPDATE, FEEDBACK_INSERT, UPVOTE_UPDATE, VOTE_ROW_INSERT,
};
pub use recent_votes::{
    after_adds, lemma_adds_keep_capacity, lemma_after_adds_step, lemma_adds_keep_newest_suffix,
    lemma_snapshot_isolation, lemma_snapshot_repeatable, newest_first, retain_newest,
    RecentVotesCache,
};
pub use vote_event::VoteEvent;
