//! The decisions of the playback worker: how a command changes the queue and
//! the current track, which track plays next, and where a relative seek lands.
use vstd::prelude::*;

use crate::queue::{has_key, key_index, keys_distinct, law_push_back_pop_front, lemma_key_index, swapped, PendingEntry, PendingQueue};
use crate::random::permutes;
use crate::track::{SoundCloudTrack, TrackView};

verus! {

/// A command sent to the playback worker.
pub enum PlayCommand {
    /// Drop the track from the queue, unless it is the one playing.
    Skip(SoundCloudTrack),
    /// Queue the track.
    Play(SoundCloudTrack),
    /// Exchange two queue positions, when the second is in the queue.
    Reorder(usize, usize),
    /// Move the play position by a number of seconds.
    Seek(i64),
    /// Put the queue in a random order.
    Shuffle,
    /// Empty the queue.
    SkipAll,
    /// Stop the current track, or, when none plays, drop the next one.
    SkipCurrent,
}

/// What the audio player must do after a command.
#[derive(Debug, PartialEq, Eq, Structural)]
pub enum PlayerOp {
    Nothing,
    /// Resume playing.
    Play,
    /// Move the play position by a number of seconds.
    Seek(i64),
    /// Drop what is playing and resume.
    ClearAndPlay,
}

/// The view of the track that plays, if one does.
pub open spec fn current_view(c: Option<SoundCloudTrack>) -> Option<TrackView> {
    match c {
        Some(t) => Some(t@),
        None => None,
    }
}

/// Whether the track that plays has the id `id`.
pub open spec fn is_current(c: Option<SoundCloudTrack>, id: Seq<char>) -> bool {
    match c {
        Some(t) => t.id@ == id,
        None => false,
    }
}

/// Applies a command to the queue and the current track, and says what the
/// audio player must do.
pub fn resolve_play_command(
    queue: &mut PendingQueue,
    curr: &mut Option<SoundCloudTrack>,
    cmd: PlayCommand,
) -> (op: PlayerOp)
    ensures
        match cmd {
            PlayCommand::Play(t) => {
                &&& op == PlayerOp::Play
                &&& *final(curr) == *old(curr)
                &&& has_key(old(queue)@, t.id@) ==> final(queue)@ == old(queue)@.update(key_index(old(queue)@, t.id@), (t.id@, t@))
                &&& !has_key(old(queue)@, t.id@) ==> final(queue)@ == old(queue)@.push((t.id@, t@))
            },
            PlayCommand::Reorder(from, to) => {
                &&& op == PlayerOp::Nothing
                &&& *final(curr) == *old(curr)
                &&& (to < old(queue)@.len() && from < old(queue)@.len()) ==> final(queue)@ == swapped(old(queue)@, from as int, to as int)
                &&& !(to < old(queue)@.len() && from < old(queue)@.len()) ==> final(queue)@ == old(queue)@
            },
            PlayCommand::Skip(t) => {
                &&& op == PlayerOp::Nothing
                &&& *final(curr) == *old(curr)
                &&& (is_current(*old(curr), t.id@) || !has_key(old(queue)@, t.id@)) ==> final(queue)@ == old(queue)@
                &&& (!is_current(*old(curr), t.id@) && has_key(old(queue)@, t.id@)) ==> final(queue)@ == old(queue)@.remove(key_index(old(queue)@, t.id@))
            },
            PlayCommand::Seek(d) => {
                &&& op == PlayerOp::Seek(d)
                &&& *final(curr) == *old(curr)
                &&& final(queue)@ == old(queue)@
            },
            PlayCommand::Shuffle => {
                &&& op == PlayerOp::Nothing
                &&& *final(curr) == *old(curr)
                &&& permutes(final(queue)@, old(queue)@)
            },
            PlayCommand::SkipAll => {
                &&& op == PlayerOp::Nothing
                &&& *final(curr) == *old(curr)
                &&& final(queue)@ == Seq::<PendingEntry>::empty()
            },
            PlayCommand::SkipCurrent => {
                &&& *old(curr) is Some ==> op == PlayerOp::ClearAndPlay && *final(curr) is None && final(queue)@ == old(queue)@
                &&& *old(curr) is None ==> op == PlayerOp::Nothing && *final(curr) is None && (old(queue)@.len() > 0 ==> final(queue)@ == old(queue)@.remove(0)) && (old(queue)@.len() == 0 ==> final(queue)@ == old(queue)@)
            },
        },
{
    match cmd {
        PlayCommand::Play(track) => {
            let id = track.id.clone();
            queue.push_back(id, track);
            PlayerOp::Play
        },
        PlayCommand::Reorder(from, to) => {
            if to < queue.len() {
                let _ = queue.swap_by_index(from, to);
            }
            PlayerOp::Nothing
        },
        PlayCommand::Skip(track) => {
            let playing = match curr {
                Some(c) => c.id == track.id,
                None => false,
            };
            if !playing {
                let _ = queue.remove(track.id.as_str());
            }
            PlayerOp::Nothing
        },
        PlayCommand::Seek(d) => PlayerOp::Seek(d),
        PlayCommand::Shuffle => {
            queue.shuffle();
            PlayerOp::Nothing
        },
        PlayCommand::SkipAll => {
            queue.clear();
            PlayerOp::Nothing
        },
        PlayCommand::SkipCurrent => {
            if curr.is_some() {
                *curr = None;
                PlayerOp::ClearAndPlay
            } else {
                let _ = queue.pop_front();
                PlayerOp::Nothing
            }
        },
    }
}

/// The next track to start: none while a track plays, else the first queued
/// one, which leaves the queue.
pub fn next_to_play(queue: &mut PendingQueue, curr: &Option<SoundCloudTrack>) -> (r: Option<(String, SoundCloudTrack)>)
    ensures
        curr is Some ==> r is None && final(queue)@ == old(queue)@,
        curr is None && old(queue)@.len() == 0 ==> r is None && final(queue)@ == old(queue)@,
        curr is None && old(queue)@.len() > 0 ==> {
            &&& r matches Some(e) && (e.0@, e.1@) == old(queue)@[0]
            &&& final(queue)@ == old(queue)@.remove(0)
        },
{
    if curr.is_some() {
        return None;
    }
    queue.pop_front()
}

/// Where a seek of `delta` seconds from `current_secs` lands: never before
/// the start.
pub open spec fn seek_target(current_secs: int, delta: int) -> int {
    if current_secs + delta < 0 {
        0
    } else {
        current_secs + delta
    }
}

/// The position, in whole seconds, that a seek of `delta` seconds from
/// `current_secs` goes to. The position is first taken as a signed 64-bit
/// number (a position past `i64::MAX` wraps around), as the player does.
pub fn seek_rel(current_secs: u64, delta: i64) -> (target: u64)
    requires
        i64::MIN <= (current_secs as i64) + delta <= i64::MAX,
    ensures
        target == seek_target((current_secs as i64) as int, delta as int),
{
    let current = current_secs as i64;
    let sum = current + delta;
    if sum < 0 {
        0
    } else {
        sum as u64
    }
}

/// Queuing a track that was not queued and then skipping it, while another
/// track (or none) plays, leaves the queue as it was.
pub proof fn law_play_then_skip(s: Seq<PendingEntry>, k: Seq<char>, v: TrackView, curr: Option<SoundCloudTrack>)
    requires
        keys_distinct(s),
        !has_key(s, k),
        !is_current(curr, k),
    ensures
        has_key(s.push((k, v)), k),
        s.push((k, v)).remove(key_index(s.push((k, v)), k)) == s,
{
    law_push_back_pop_front(s, k, v);
    lemma_key_index(s.push((k, v)), k, s.len() as int);
    assert(s.push((k, v)).remove(s.len() as int) =~= s);
}

/// A seek never goes before the start, and a forward seek moves by exactly
/// its amount.
pub proof fn law_seek(current_secs: int, delta: int)
    requires
        current_secs >= 0,
    ensures
        seek_target(current_secs, delta) >= 0,
        delta >= 0 ==> seek_target(current_secs, delta) == current_secs + delta,
        current_secs + delta <= 0 ==> seek_target(current_secs, delta) == 0,
{
}

} // verus!
