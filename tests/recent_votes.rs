use lyric_feedback::{RecentVotesCache, VoteEvent};

fn vote(time: i64, lyric: &str, is_upvote: bool) -> VoteEvent {
    VoteEvent::new(
        time,
        "Album".to_string(),
        "Song".to_string(),
        lyric.to_string(),
        is_upvote,
    )
}

fn lyrics(events: &[VoteEvent]) -> Vec<String> {
    events.iter().map(|e| e.lyric.clone()).collect()
}

#[test]
fn capacity_two_keeps_last_two_newest_first() {
    let mut cache = RecentVotesCache::new(2);
    cache.add(vote(1, "A", true));
    cache.add(vote(2, "B", false));
    cache.add(vote(3, "C", true));
    assert_eq!(cache.len(), 2);
    let snap = cache.snapshot();
    assert_eq!(lyrics(&snap), vec!["C", "B"]);
    assert_eq!(snap[0], vote(3, "C", true));
    assert_eq!(snap[1], vote(2, "B", false));
}

#[test]
fn fewer_adds_than_capacity_evicts_nothing() {
    let mut cache = RecentVotesCache::new(100);
    for i in 0..37 {
        cache.add(vote(i, &format!("line {}", i), i % 2 == 0));
    }
    let snap = cache.snapshot();
    assert_eq!(snap.len(), 37);
    assert_eq!(snap[0].lyric, "line 36");
    assert_eq!(snap[36].lyric, "line 0");
}

#[test]
fn length_is_min_of_capacity_and_adds_after_every_add() {
    for capacity in 0..6usize {
        let mut cache = RecentVotesCache::new(capacity);
        assert_eq!(cache.len(), 0);
        assert!(cache.is_empty());
        for added in 1..15usize {
            cache.add(vote(added as i64, "x", true));
            assert_eq!(cache.len(), added.min(capacity));
            assert_eq!(cache.snapshot().len(), added.min(capacity));
            assert_eq!(cache.capacity(), capacity);
        }
    }
}

#[test]
fn exactly_the_last_capacity_events_survive() {
    let capacity = 4usize;
    let total = 11i64;
    let mut cache = RecentVotesCache::new(capacity);
    for i in 0..total {
        cache.add(vote(i, &i.to_string(), true));
    }
    let snap = cache.snapshot();
    let times: Vec<i64> = snap.iter().map(|e| e.time).collect();
    assert_eq!(times, vec![10, 9, 8, 7]);
}

#[test]
fn snapshot_before_add_lacks_event_and_after_holds_it_once() {
    let mut cache = RecentVotesCache::new(3);
    cache.add(vote(1, "A", true));
    cache.add(vote(2, "B", true));
    cache.add(vote(3, "C", true));
    let before = cache.snapshot();
    let fresh = vote(4, "D", false);
    cache.add(fresh.clone());
    let after = cache.snapshot();
    assert!(!before.contains(&fresh));
    assert_eq!(before.len(), 3);
    assert_eq!(lyrics(&before), vec!["C", "B", "A"]);
    assert_eq!(after.iter().filter(|e| **e == fresh).count(), 1);
    assert_eq!(after[0], fresh);
    assert_eq!(lyrics(&after), vec!["D", "C", "B"]);
}

#[test]
fn repeated_snapshots_are_equal() {
    let mut cache = RecentVotesCache::new(5);
    cache.add(vote(1, "A", true));
    cache.add(vote(1, "A", true));
    cache.add(vote(2, "B", false));
    let first = cache.snapshot();
    let second = cache.snapshot();
    assert_eq!(first, second);
    assert_eq!(first.len(), 3);
}

#[test]
fn equal_events_are_kept_as_separate_entries() {
    let mut cache = RecentVotesCache::new(2);
    cache.add(vote(7, "same", true));
    cache.add(vote(7, "same", true));
    assert_eq!(cache.snapshot(), vec![vote(7, "same", true), vote(7, "same", true)]);
}

#[test]
fn capacity_zero_retains_nothing() {
    let mut cache = RecentVotesCache::new(0);
    cache.add(vote(1, "A", true));
    assert!(cache.is_empty());
    assert!(cache.snapshot().is_empty());
}

#[test]
fn capacity_one_keeps_only_newest() {
    let mut cache = RecentVotesCache::new(1);
    cache.add(vote(1, "A", true));
    cache.add(vote(2, "B", false));
    assert_eq!(cache.snapshot(), vec![vote(2, "B", false)]);
}

#[test]
fn recent_returns_newest_n() {
    let mut cache = RecentVotesCache::new(10);
    for i in 0..6 {
        cache.add(vote(i, &i.to_string(), true));
    }
    assert_eq!(lyrics(&cache.recent(2)), vec!["5", "4"]);
    assert_eq!(lyrics(&cache.recent(0)), Vec::<String>::new());
    assert_eq!(cache.recent(100), cache.snapshot());
}

#[test]
fn snapshot_is_not_changed_by_later_adds() {
    let mut cache = RecentVotesCache::new(2);
    cache.add(vote(1, "A", true));
    let snap = cache.snapshot();
    cache.add(vote(2, "B", true));
    cache.add(vote(3, "C", true));
    assert_eq!(snap, vec![vote(1, "A", true)]);
}

#[test]
fn clone_keeps_every_field() {
    let e = vote(42, "line", false);
    let c = e.clone();
    assert_eq!(c.time, 42);
    assert_eq!(c.album, "Album");
    assert_eq!(c.song_name, "Song");
    assert_eq!(c.lyric, "line");
    assert!(!c.is_upvote);
}
