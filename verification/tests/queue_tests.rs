use nocy::player::{next_to_play, resolve_play_command, seek_rel, PlayCommand, PlayerOp};
use nocy::queue::PendingQueue;
use nocy::track::SoundCloudTrack;

fn track(id: &str, title: &str, secs: u64) -> SoundCloudTrack {
    SoundCloudTrack {
        id: id.to_string(),
        title: title.to_string(),
        artist: "Artist".to_string(),
        permalink_url: format!("https://soundcloud.com/a/{}", id),
        duration: secs,
        created_at: "2024-01-01".to_string(),
        track_authorization: None,
        transcodings: None,
    }
}

fn ids(q: &PendingQueue) -> Vec<String> {
    let mut v = Vec::new();
    let mut i = 0;
    while let Some((k, _)) = q.entry_at(i) {
        v.push(k.clone());
        i += 1;
    }
    v
}

#[test]
fn queue_starts_empty() {
    let q = PendingQueue::new();
    assert_eq!(q.len(), 0);
    assert!(q.is_empty());
    assert!(q.entry_at(0).is_none());
}

#[test]
fn push_appends_in_order() {
    let mut q = PendingQueue::new();
    q.push("a".to_string(), track("a", "A", 1));
    q.push_back("b".to_string(), track("b", "B", 2));
    q.push("c".to_string(), track("c", "C", 3));
    assert_eq!(ids(&q), vec!["a", "b", "c"]);
    assert_eq!(q.len(), 3);
    assert!(!q.is_empty());
}

#[test]
fn push_existing_id_keeps_place_and_replaces_track() {
    let mut q = PendingQueue::new();
    q.push("a".to_string(), track("a", "A", 1));
    q.push("b".to_string(), track("b", "B", 2));
    q.push("a".to_string(), track("a", "A2", 9));
    assert_eq!(ids(&q), vec!["a", "b"]);
    assert_eq!(q.get("a").unwrap().title, "A2");
    assert_eq!(q.get("a").unwrap().duration, 9);
}

#[test]
fn push_front_new_and_existing() {
    let mut q = PendingQueue::new();
    q.push_front("a".to_string(), track("a", "A", 1));
    assert_eq!(ids(&q), vec!["a"]);
    q.push("b".to_string(), track("b", "B", 2));
    q.push("c".to_string(), track("c", "C", 3));
    q.push_front("d".to_string(), track("d", "D", 4));
    assert_eq!(ids(&q), vec!["d", "a", "b", "c"]);
    q.push_front("b".to_string(), track("b", "B2", 5));
    assert_eq!(ids(&q), vec!["b", "d", "a", "c"]);
    assert_eq!(q.get("b").unwrap().title, "B2");
}

#[test]
fn pop_front_and_back() {
    let mut q = PendingQueue::new();
    assert!(q.pop_front().is_none());
    assert!(q.pop_back().is_none());
    q.push("a".to_string(), track("a", "A", 1));
    q.push("b".to_string(), track("b", "B", 2));
    q.push("c".to_string(), track("c", "C", 3));
    let (k, v) = q.pop_front().unwrap();
    assert_eq!(k, "a");
    assert_eq!(v.title, "A");
    let (k, v) = q.pop_back().unwrap();
    assert_eq!(k, "c");
    assert_eq!(v.title, "C");
    assert_eq!(ids(&q), vec!["b"]);
}

#[test]
fn remove_keeps_order_of_others() {
    let mut q = PendingQueue::new();
    for id in ["a", "b", "c", "d"] {
        q.push(id.to_string(), track(id, id, 1));
    }
    let r = q.remove("b").unwrap();
    assert_eq!(r.id, "b");
    assert_eq!(ids(&q), vec!["a", "c", "d"]);
    assert!(q.remove("zz").is_none());
    assert_eq!(ids(&q), vec!["a", "c", "d"]);
    assert!(!q.contains("b"));
    assert!(q.contains("c"));
}

#[test]
fn get_and_with() {
    let mut q = PendingQueue::new();
    q.push("a".to_string(), track("a", "Alpha", 7));
    assert!(q.get("x").is_none());
    assert_eq!(q.with("a", |t| t.duration * 2), Some(14));
    assert_eq!(q.with("x", |t| t.duration), None);
}

#[test]
fn swap_by_index_and_by_id() {
    let mut q = PendingQueue::new();
    for id in ["a", "b", "c"] {
        q.push(id.to_string(), track(id, id, 1));
    }
    assert!(q.swap_by_index(0, 2));
    assert_eq!(ids(&q), vec!["c", "b", "a"]);
    assert!(!q.swap_by_index(0, 3));
    assert_eq!(ids(&q), vec!["c", "b", "a"]);
    assert!(q.swap("a", "b"));
    assert_eq!(ids(&q), vec!["c", "a", "b"]);
    assert!(!q.swap("a", "zz"));
    assert_eq!(ids(&q), vec!["c", "a", "b"]);
}

#[test]
fn swapping_twice_restores() {
    let mut q = PendingQueue::new();
    for id in ["a", "b", "c", "d"] {
        q.push(id.to_string(), track(id, id, 1));
    }
    q.swap_by_index(1, 3);
    q.swap_by_index(1, 3);
    assert_eq!(ids(&q), vec!["a", "b", "c", "d"]);
}

#[test]
fn push_front_then_pop_front_restores() {
    let mut q = PendingQueue::new();
    for id in ["a", "b"] {
        q.push(id.to_string(), track(id, id, 1));
    }
    q.push_front("n".to_string(), track("n", "N", 3));
    let (k, v) = q.pop_front().unwrap();
    assert_eq!(k, "n");
    assert_eq!(v.title, "N");
    assert_eq!(ids(&q), vec!["a", "b"]);
}

#[test]
fn clear_and_snapshot() {
    let mut q = PendingQueue::new();
    for id in ["a", "b"] {
        q.push(id.to_string(), track(id, id, 1));
    }
    let snap = q.snapshot();
    assert_eq!(snap.len(), 2);
    assert_eq!(snap.get_index(0).unwrap().0, "a");
    q.clear();
    assert!(q.is_empty());
    assert_eq!(snap.len(), 2);
}

#[test]
fn shuffle_keeps_every_entry_once() {
    let mut q = PendingQueue::new();
    let all: Vec<String> = (0..40).map(|i| format!("t{}", i)).collect();
    for id in &all {
        q.push(id.clone(), track(id, id, 1));
    }
    q.shuffle();
    let mut got = ids(&q);
    assert_eq!(got.len(), 40);
    got.sort();
    let mut want = all.clone();
    want.sort();
    assert_eq!(got, want);
    for id in &all {
        assert_eq!(q.get(id).unwrap().title, *id);
    }
}

#[test]
fn play_command_queues_and_plays() {
    let mut q = PendingQueue::new();
    let mut curr: Option<SoundCloudTrack> = None;
    let op = resolve_play_command(&mut q, &mut curr, PlayCommand::Play(track("a", "A", 1)));
    assert_eq!(op, PlayerOp::Play);
    assert_eq!(ids(&q), vec!["a"]);
}

#[test]
fn skip_command_spares_the_current_track() {
    let mut q = PendingQueue::new();
    q.push("a".to_string(), track("a", "A", 1));
    q.push("b".to_string(), track("b", "B", 1));
    let mut curr = Some(track("a", "A", 1));
    let op = resolve_play_command(&mut q, &mut curr, PlayCommand::Skip(track("a", "A", 1)));
    assert_eq!(op, PlayerOp::Nothing);
    assert_eq!(ids(&q), vec!["a", "b"]);
    resolve_play_command(&mut q, &mut curr, PlayCommand::Skip(track("b", "B", 1)));
    assert_eq!(ids(&q), vec!["a"]);
}

#[test]
fn play_then_skip_restores_queue() {
    let mut q = PendingQueue::new();
    q.push("a".to_string(), track("a", "A", 1));
    let mut curr = None;
    resolve_play_command(&mut q, &mut curr, PlayCommand::Play(track("n", "N", 1)));
    resolve_play_command(&mut q, &mut curr, PlayCommand::Skip(track("n", "N", 1)));
    assert_eq!(ids(&q), vec!["a"]);
}

#[test]
fn reorder_command_needs_target_in_queue() {
    let mut q = PendingQueue::new();
    for id in ["a", "b", "c"] {
        q.push(id.to_string(), track(id, id, 1));
    }
    let mut curr = None;
    resolve_play_command(&mut q, &mut curr, PlayCommand::Reorder(0, 2));
    assert_eq!(ids(&q), vec!["c", "b", "a"]);
    resolve_play_command(&mut q, &mut curr, PlayCommand::Reorder(0, 3));
    assert_eq!(ids(&q), vec!["c", "b", "a"]);
    resolve_play_command(&mut q, &mut curr, PlayCommand::Reorder(5, 1));
    assert_eq!(ids(&q), vec!["c", "b", "a"]);
}

#[test]
fn skip_current_and_skip_all() {
    let mut q = PendingQueue::new();
    for id in ["a", "b"] {
        q.push(id.to_string(), track(id, id, 1));
    }
    let mut curr = Some(track("x", "X", 1));
    let op = resolve_play_command(&mut q, &mut curr, PlayCommand::SkipCurrent);
    assert_eq!(op, PlayerOp::ClearAndPlay);
    assert!(curr.is_none());
    assert_eq!(ids(&q), vec!["a", "b"]);
    let op = resolve_play_command(&mut q, &mut curr, PlayCommand::SkipCurrent);
    assert_eq!(op, PlayerOp::Nothing);
    assert_eq!(ids(&q), vec!["b"]);
    let op = resolve_play_command(&mut q, &mut curr, PlayCommand::SkipAll);
    assert_eq!(op, PlayerOp::Nothing);
    assert!(q.is_empty());
    let op = resolve_play_command(&mut q, &mut curr, PlayCommand::Seek(-5));
    assert_eq!(op, PlayerOp::Seek(-5));
    let op = resolve_play_command(&mut q, &mut curr, PlayCommand::Shuffle);
    assert_eq!(op, PlayerOp::Nothing);
}

#[test]
fn next_to_play_waits_for_current() {
    let mut q = PendingQueue::new();
    q.push("a".to_string(), track("a", "A", 1));
    let busy = Some(track("x", "X", 1));
    assert!(next_to_play(&mut q, &busy).is_none());
    assert_eq!(q.len(), 1);
    let (k, v) = next_to_play(&mut q, &None).unwrap();
    assert_eq!(k, "a");
    assert_eq!(v.title, "A");
    assert!(next_to_play(&mut q, &None).is_none());
}

#[test]
fn seek_rel_targets() {
    assert_eq!(seek_rel(10, 5), 15);
    assert_eq!(seek_rel(10, -5), 5);
    assert_eq!(seek_rel(3, -5), 0);
    assert_eq!(seek_rel(0, 0), 0);
}
