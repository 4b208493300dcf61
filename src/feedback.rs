use crate::clock::now_micros;
use crate::recent_votes::{retain_newest, RecentVotesCache};
use crate::vote_event::VoteEvent;
use vstd::prelude::*;

verus! {

/// Creates the counter row of a lyric line, if it is not there yet.
/// Its parameters are the album, the song name and the line.
pub const VOTE_ROW_INSERT: &'static str =
    "INSERT IGNORE INTO votes (album, song_name, lyric, num_upvotes, num_downvotes) VALUES (?, ?, ?, 0, 0);";

/// Adds one to the upvotes of a lyric line (album, song name, line).
pub const UPVOTE_UPDATE: &'static str =
    "UPDATE votes SET num_upvotes = num_upvotes + 1 WHERE album LIKE ? AND song_name LIKE ? AND lyric LIKE ?;";

/// Adds one to the downvotes of a lyric line (album, song name, line).
pub const DOWNVOTE_UPDATE: &'static str =
    "UPDATE votes SET num_downvotes = num_downvotes + 1 WHERE album LIKE ? AND song_name LIKE ? AND lyric LIKE ?;";

/// Stores one feedback submission, stamped with the database's clock.
/// Its parameters are the fields of [`Feedback::into_row`], in that order.
pub const FEEDBACK_INSERT: &'static str =
    "INSERT INTO feedback (time, album, song_name, lyric, message, contact) VALUES (NOW(), ?, ?, ?, ?, ?)";

/// The statement that counts a vote: upvotes for an upvote, downvotes for a
/// downvote.
pub fn counter_update_statement(is_upvote: bool) -> (r: &'static str)
    ensures
        r@ == (if is_upvote {
            UPVOTE_UPDATE@
        } else {
            DOWNVOTE_UPDATE@
        }),
{
    if is_upvote {
        UPVOTE_UPDATE
    } else {
        DOWNVOTE_UPDATE
    }
}

/// Whether `e` is the vote on line `lyric` of song `song_name` on `album`,
/// cast at `time`, in the direction `is_upvote`.
pub open spec fn is_vote(
    e: VoteEvent,
    time: i64,
    album: Seq<char>,
    song_name: Seq<char>,
    lyric: Seq<char>,
    is_upvote: bool,
) -> bool {
    &&& e.time == time
    &&& e.album@ == album
    &&& e.song_name@ == song_name
    &&& e.lyric@ == lyric
    &&& e.is_upvote == is_upvote
}

/// Records in `cache` the vote on `line` of `song_name` on `album`, cast at
/// `time`. The vote becomes the newest event; a full cache drops its oldest.
pub fn record_vote(
    cache: &mut RecentVotesCache,
    time: i64,
    album: &str,
    song_name: &str,
    line: &str,
    is_upvote: bool,
)
    ensures
        final(cache).max_len() == old(cache).max_len(),
        old(cache).max_len() == 0 ==> final(cache)@ == old(cache)@,
        old(cache).max_len() > 0 ==> {
            let e = final(cache)@.last();
            &&& is_vote(e, time, album@, song_name@, line@, is_upvote)
            &&& final(cache)@ == retain_newest(old(cache)@.push(e), old(cache).max_len())
        },
{
    let event = VoteEvent::new(
        time,
        album.to_owned(),
        song_name.to_owned(),
        line.to_owned(),
        is_upvote,
    );
    cache.add(event);
}

/// Records an upvote on `line` of `song_name` on `album`, stamped with the
/// current time.
pub fn upvote_line(cache: &mut RecentVotesCache, album: &str, song_name: &str, line: &str)
    ensures
        final(cache).max_len() == old(cache).max_len(),
        old(cache).max_len() == 0 ==> final(cache)@ == old(cache)@,
        old(cache).max_len() > 0 ==> {
            let e = final(cache)@.last();
            &&& e.time >= 0
            &&& is_vote(e, e.time, album@, song_name@, line@, true)
            &&& final(cache)@ == retain_newest(old(cache)@.push(e), old(cache).max_len())
        },
{
    let time = now_micros();
    record_vote(cache, time, album, song_name, line, true);
}

/// Records a downvote on `line` of `song_name` on `album`, stamped with the
/// current time.
pub fn downvote_line(cache: &mut RecentVotesCache, album: &str, song_name: &str, line: &str)
    ensures
        final(cache).max_len() == old(cache).max_len(),
        old(cache).max_len() == 0 ==> final(cache)@ == old(cache)@,
        old(cache).max_len() > 0 ==> {
            let e = final(cache)@.last();
            &&& e.time >= 0
            &&& is_vote(e, e.time, album@, song_name@, line@, false)
            &&& final(cache)@ == retain_newest(old(cache)@.push(e), old(cache).max_len())
        },
{
    let time = now_micros();
    record_vote(cache, time, album, song_name, line, false);
}

/// A free-text feedback submission about one lyric line.
#[derive(Debug)]
pub struct Feedback {
    pub album: String,
    pub song: String,
    pub lyric: String,
    pub message: String,
    pub contact: String,
}

impl Feedback {
    /// Builds a submission from its fields.
    pub fn new(album: String, song: String, lyric: String, message: String, contact: String) -> (r:
        Feedback)
        ensures
            r.album == album,
            r.song == song,
            r.lyric == lyric,
            r.message == message,
            r.contact == contact,
    {
        Feedback { album, song, lyric, message, contact }
    }

    /// The values stored for the submission, in the order of the parameters
    /// of [`FEEDBACK_INSERT`]: album, song, lyric, message, contact.
    pub fn into_row(self) -> (r: Vec<String>)
        ensures
            r@ == seq![self.album, self.song, self.lyric, self.message, self.contact],
    {
        let Feedback { album, song, lyric, message, contact } = self;
        let mut r: Vec<String> = Vec::with_capacity(5);
        r.push(album);
        r.push(song);
        r.push(lyric);
        r.push(message);
        r.push(contact);
        r
    }
}

} // verus!
