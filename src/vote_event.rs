use vstd::prelude::*;

verus! {

/// One upvote or downvote on a single lyric line.
///
/// `time` is the instant of the vote in microseconds since the Unix epoch
/// (UTC). Two events are the same event exactly when all fields agree.
#[derive(Debug, PartialEq, Eq)]
pub struct VoteEvent {
    pub time: i64,
    pub album: String,
    pub song_name: String,
    pub lyric: String,
    pub is_upvote: bool,
}

impl VoteEvent {
    /// Builds an event from its fields.
    pub fn new(time: i64, album: String, song_name: String, lyric: String, is_upvote: bool) -> (r:
        VoteEvent)
        ensures
            r.time == time,
            r.album == album,
            r.song_name == song_name,
            r.lyric == lyric,
            r.is_upvote == is_upvote,
    {
        VoteEvent { time, album, song_name, lyric, is_upvote }
    }
}

impl Clone for VoteEvent {
    fn clone(&self) -> (r: Self)
        ensures
            r == *self,
    {
        VoteEvent {
            time: self.time,
            album: self.album.clone(),
            song_name: self.song_name.clone(),
            lyric: self.lyric.clone(),
            is_upvote: self.is_upvote,
        }
    }
}

} // verus!
