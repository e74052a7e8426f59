//! What the interface draws, as text and numbers: durations, the rows of the
//! board and of the queue, and the window of rows that fits the screen.
use vstd::prelude::*;

use crate::queue::{has_key, PendingEntry, PendingQueue};
use crate::text::{decimal, pad_space, pad_zero, push_char, push_decimal, push_decimal_pad2, str_eq};
use crate::track::SoundCloudTrack;

verus! {

/// The renderer of the interface; what it draws lives with the terminal.
pub struct Renderer;

impl Renderer {
    /// The renderer.
    pub fn new() -> (r: Self) {
        Renderer
    }
}

/// Hours, minutes and seconds of a duration in seconds.
pub open spec fn hms(dur: nat) -> (nat, nat, nat) {
    (dur / 3600, (dur % 3600) / 60, dur % 60)
}

/// Splits a duration in seconds into hours, minutes and seconds.
pub fn dur_calc(dur: u64) -> (r: (u64, u64, u64))
    ensures
        (r.0 as nat, r.1 as nat, r.2 as nat) == hms(dur as nat),
{
    let h = dur / 3600;
    let m = (dur % 3600) / 60;
    let s = dur % 60;
    (h, m, s)
}

/// A duration in seconds as `{h}h {m}m {s}s`.
pub open spec fn hms_text(dur: nat) -> Seq<char> {
    let (h, m, s) = hms(dur);
    decimal(h) + "h "@ + decimal(m) + "m "@ + decimal(s) + "s"@
}

/// Writes a duration as `{h}h {m}m {s}s`.
pub fn dur_hmsfmt(dur: u64) -> (r: String)
    ensures
        r@ == hms_text(dur as nat),
{
    let (h, m, s) = dur_calc(dur);
    let mut r = String::new();
    push_decimal(&mut r, h);
    r.append("h ");
    push_decimal(&mut r, m);
    r.append("m ");
    push_decimal(&mut r, s);
    r.append("s");
    r
}

/// A duration in seconds as a clock: `HH:MM:SS` when it has hours or `long`
/// asks for them, else `MM:SS`; each field has at least two digits.
pub open spec fn clock_text(dur: nat, long: Option<bool>) -> Seq<char> {
    let (h, m, s) = hms(dur);
    let long_form = match long {
        Some(b) => b,
        None => false,
    };
    if h > 0 || long_form {
        pad_zero(decimal(h), 2) + ":"@ + pad_zero(decimal(m), 2) + ":"@ + pad_zero(decimal(s), 2)
    } else {
        pad_zero(decimal(m), 2) + ":"@ + pad_zero(decimal(s), 2)
    }
}

/// Writes a duration as a clock (see `clock_text`).
pub fn dur_thmsfmt(dur: u64, long: Option<bool>) -> (r: String)
    ensures
        r@ == clock_text(dur as nat, long),
{
    let (h, m, s) = dur_calc(dur);
    let long_form = match long {
        Some(b) => b,
        None => false,
    };
    let mut r = String::new();
    if h > 0 || long_form {
        push_decimal_pad2(&mut r, h);
        r.append(":");
    }
    push_decimal_pad2(&mut r, m);
    r.append(":");
    push_decimal_pad2(&mut r, s);
    r
}

/// The rows of the board that fit a screen `height` rows high: the window
/// starts half a screen above the selection (or at the top) and ends a
/// screen lower or at the end of the list; the last number is the row of
/// the selection inside the window.
pub open spec fn board_window_spec(selected: nat, height: nat, len: nat) -> (int, int, int) {
    let start = if selected >= height / 2 { selected - height / 2 } else { 0 };
    let end = if start + height < len { start + height } else { len as int };
    (start, end, selected - start)
}

/// The window of board rows to draw (see `board_window_spec`).
pub fn board_window(selected: usize, height: usize, len: usize) -> (r: (usize, usize, usize))
    requires
        board_window_spec(selected as nat, height as nat, len as nat).0 + height <= usize::MAX,
    ensures
        (r.0 as int, r.1 as int, r.2 as int) == board_window_spec(selected as nat, height as nat, len as nat),
{
    let start = selected.saturating_sub(height / 2);
    let sum = start + height;
    let end = if sum < len { sum } else { len };
    (start, end, selected - start)
}

/// The marker in front of a board row: the track that plays, a queued
/// track, or neither.
pub open spec fn row_marker_text(is_playing: bool, is_queued: bool) -> Seq<char> {
    if is_playing {
        "▶ "@
    } else if is_queued {
        "# "@
    } else {
        "   "@
    }
}

/// The row of the track that plays is marked as playing whether or not that
/// track is queued; a row that does not play is marked as queued exactly
/// when it is, and the three markers differ.
pub proof fn law_row_marker(is_playing: bool, is_queued: bool)
    ensures
        is_playing ==> row_marker_text(is_playing, is_queued) == "▶ "@,
        row_marker_text(true, true) == row_marker_text(true, false),
        !is_playing && is_queued ==> row_marker_text(is_playing, is_queued) == "# "@,
        !is_playing && !is_queued ==> row_marker_text(is_playing, is_queued) == "   "@,
        row_marker_text(true, is_queued) != row_marker_text(false, true),
        row_marker_text(true, is_queued) != row_marker_text(false, false),
        row_marker_text(false, true) != row_marker_text(false, false),
{
    reveal_strlit("▶ ");
    reveal_strlit("# ");
    reveal_strlit("   ");
    assert("▶ "@ != "# "@) by { assert("▶ "@[0] != "# "@[0]); }
    assert("▶ "@.len() != "   "@.len());
    assert("# "@.len() != "   "@.len());
}

/// The marker in front of a board row (see `row_marker_text`).
pub fn row_marker(is_playing: bool, is_queued: bool) -> (r: &'static str)
    ensures
        r@ == row_marker_text(is_playing, is_queued),
        is_playing ==> r@ == "▶ "@,
        !is_playing && is_queued ==> r@ == "# "@,
        !is_playing && !is_queued ==> r@ == "   "@,
{
    proof { law_row_marker(is_playing, is_queued); }
    if is_playing {
        "▶ "
    } else if is_queued {
        "# "
    } else {
        "   "
    }
}

/// The number of a board row (`index` counts from zero), right-aligned in
/// two columns, with a dot.
pub fn row_number(index: usize) -> (r: String)
    requires
        index < usize::MAX,
    ensures
        r@ == pad_space(decimal(index as nat + 1), 2) + ". "@,
{
    let n = (index + 1) as u64;
    let mut r = String::new();
    proof {
        crate::text::lemma_decimal_len(n as nat);
        reveal_with_fuel(pad_space, 3);
    }
    if n < 10 {
        push_char(&mut r, ' ');
    }
    push_decimal(&mut r, n);
    r.append(". ");
    assert(r@ == pad_space(decimal(index as nat + 1), 2) + ". "@);
    r
}

/// The title of the panel of the track that plays.
pub open spec fn playing_title_text(has_current: bool, paused: bool) -> Seq<char> {
    if !has_current {
        " Nothing "@
    } else if paused {
        " Paused "@
    } else {
        " Playing "@
    }
}

/// With no current track the panel says " Nothing ", paused or not; with a
/// current track it says " Paused " or " Playing " by the paused flag, and
/// the three titles differ.
pub proof fn law_playing_title(has_current: bool, paused: bool)
    ensures
        !has_current ==> playing_title_text(has_current, paused) == " Nothing "@,
        playing_title_text(false, true) == playing_title_text(false, false),
        has_current && paused ==> playing_title_text(has_current, paused) == " Paused "@,
        has_current && !paused ==> playing_title_text(has_current, paused) == " Playing "@,
        playing_title_text(false, paused) != playing_title_text(true, true),
        playing_title_text(false, paused) != playing_title_text(true, false),
        playing_title_text(true, true) != playing_title_text(true, false),
{
    reveal_strlit(" Nothing ");
    reveal_strlit(" Paused ");
    reveal_strlit(" Playing ");
    assert(" Nothing "@.len() != " Paused "@.len());
    assert(" Paused "@.len() != " Playing "@.len());
    assert(" Nothing "@ != " Playing "@) by { assert(" Nothing "@[1] != " Playing "@[1]); }
}

/// The title of the panel of the track that plays (see `playing_title_text`).
pub fn playing_title(has_current: bool, paused: bool) -> (r: &'static str)
    ensures
        r@ == playing_title_text(has_current, paused),
        !has_current ==> r@ == " Nothing "@,
        has_current && paused ==> r@ == " Paused "@,
        has_current && !paused ==> r@ == " Playing "@,
{
    proof { law_playing_title(has_current, paused); }
    if !has_current {
        " Nothing "
    } else if paused {
        " Paused "
    } else {
        " Playing "
    }
}

/// A title cut to `max` characters, with an ellipsis when something was cut.
pub open spec fn truncated_text(title: Seq<char>, max: nat) -> Seq<char> {
    if title.len() > max {
        title.subrange(0, max as int) + "…"@
    } else {
        title
    }
}

/// Cuts a title to `max` characters (see `truncated_text`).
pub fn truncate_title(title: &str, max: usize) -> (r: String)
    ensures
        r@ == truncated_text(title@, max as nat),
{
    let n = title.unicode_len();
    if n > max {
        let head = title.substring_char(0, max);
        let mut r = String::from_str(head);
        r.append("…");
        r
    } else {
        String::from_str(title)
    }
}

/// The sum of the durations of the queued tracks.
pub open spec fn total_secs(q: Seq<PendingEntry>) -> nat
    decreases q.len(),
{
    if q.len() == 0 {
        0
    } else {
        total_secs(q.drop_last()) + q.last().1.duration as nat
    }
}

proof fn lemma_total_secs_mono(q: Seq<PendingEntry>, i: int)
    requires
        0 <= i <= q.len(),
    ensures
        total_secs(q.subrange(0, i)) <= total_secs(q),
    decreases q.len() - i,
{
    if i < q.len() {
        lemma_total_secs_mono(q, i + 1);
        assert(q.subrange(0, i + 1).drop_last() =~= q.subrange(0, i));
    } else {
        assert(q.subrange(0, i) =~= q);
    }
}

/// The total playing time of the queue in seconds; `None` when it does not
/// fit in 64 bits.
pub fn queue_total_secs(queue: &PendingQueue) -> (r: Option<u64>)
    ensures
        total_secs(queue@) <= u64::MAX ==> r == Some(total_secs(queue@) as u64),
        total_secs(queue@) > u64::MAX ==> r is None,
{
    let n = queue.len();
    let mut total: u64 = 0;
    let mut i: usize = 0;
    while i < n
        invariant
            n == queue@.len(),
            i <= n,
            total == total_secs(queue@.subrange(0, i as int)),
        decreases n - i,
    {
        assert(queue@.subrange(0, i + 1).drop_last() =~= queue@.subrange(0, i as int));
        let d = match queue.entry_at(i) {
            Some((_, t)) => t.duration,
            None => 0,
        };
        if total > u64::MAX - d {
            proof {
                lemma_total_secs_mono(queue@, i + 1);
            }
            return None;
        }
        total = total + d;
        i = i + 1;
    }
    assert(queue@.subrange(0, n as int) =~= queue@);
    Some(total)
}

/// The title of the queue panel: ` Queue | {h}h {m}m {s}s `.
pub fn queue_panel_title(total_secs: u64) -> (r: String)
    ensures
        r@ == " Queue | "@ + hms_text(total_secs as nat) + " "@,
{
    let mut r = String::from_str(" Queue | ");
    let d = dur_hmsfmt(total_secs);
    r.append(d.as_str());
    r.append(" ");
    r
}

/// The number of queue rows that fit a panel `height` rows high.
pub fn queue_rows(height: u16) -> (n: usize)
    ensures
        n == if height >= 4 { height - 4 } else { 0 },
{
    height.saturating_sub(4) as usize
}

/// The last row of the queue panel when the queue is longer than the rows
/// shown: ` - {hidden}+`.
pub fn queue_more_label(len: usize, shown: usize) -> (r: Option<String>)
    ensures
        len <= shown ==> r is None,
        len > shown ==> r is Some && r.unwrap()@ == " - "@ + decimal((len - shown) as nat) + "+"@,
{
    if len > shown {
        let mut r = String::from_str(" - ");
        push_decimal(&mut r, (len - shown) as u64);
        r.append("+");
        Some(r)
    } else {
        None
    }
}

/// The blank rows above the picture of an empty board, which is eleven rows
/// high and followed by two more, centred in a panel `height` rows high
/// with a border row at the top and bottom.
pub fn art_padding(height: u16) -> (pad: u16)
    ensures
        pad == (if height >= 2 { if height - 2 >= 13 { height - 2 - 13 } else { 0 } } else { 0 }) / 2,
{
    let inner_h = height.saturating_sub(2);
    let art_h: u16 = 13;
    inner_h.saturating_sub(art_h) / 2
}

/// The text of the search bar: the query while it has the keyboard, else the
/// title of the track that plays, or a greeting.
pub fn searchbar_text(active: bool, query: &str, current_title: Option<&str>) -> (r: String)
    ensures
        active ==> r@ == query@,
        !active && current_title is Some ==> r@ == current_title.unwrap()@,
        !active && current_title is None ==> r@ == "Nice Choice!"@,
{
    if active {
        String::from_str(query)
    } else {
        match current_title {
            Some(t) => String::from_str(t),
            None => String::from_str("Nice Choice!"),
        }
    }
}

/// Hours, minutes and seconds add back up to the duration, and minutes and
/// seconds stay below sixty.
pub proof fn law_hms(dur: nat)
    ensures
        hms(dur).0 * 3600 + hms(dur).1 * 60 + hms(dur).2 == dur,
        hms(dur).1 < 60,
        hms(dur).2 < 60,
{
    assert(dur == (dur / 3600) * 3600 + dur % 3600) by (nonlinear_arith);
    assert(dur % 3600 == ((dur % 3600) / 60) * 60 + (dur % 3600) % 60) by (nonlinear_arith);
    assert((dur % 3600) % 60 == dur % 60) by (nonlinear_arith);
    assert(dur % 3600 < 3600) by (nonlinear_arith);
    assert((dur % 3600) / 60 < 60) by (nonlinear_arith)
        requires dur % 3600 < 3600;
}

/// The window of board rows holds the selection when the selection is on
/// the board, and is never taller than the screen.
pub proof fn law_board_window(selected: nat, height: nat, len: nat)
    requires
        selected < len,
        height > 0,
    ensures
        board_window_spec(selected, height, len).0 <= selected < board_window_spec(selected, height, len).1,
        board_window_spec(selected, height, len).1 - board_window_spec(selected, height, len).0 <= height,
        board_window_spec(selected, height, len).2 == selected - board_window_spec(selected, height, len).0,
{
    assert(height / 2 < height) by (nonlinear_arith)
        requires height > 0;
}

/// The clock of the play position: in the long form exactly when the
/// clock of the track's length has eight characters (`HH:MM:SS`).
pub open spec fn position_clock_text(pos_secs: nat, track_secs: nat) -> Seq<char> {
    clock_text(pos_secs, Some(clock_text(track_secs, None).len() == 8))
}

/// Writes the clock of the play position (see `position_clock_text`).
pub fn position_clock(pos_secs: u64, track_secs: u64) -> (r: String)
    ensures
        r@ == position_clock_text(pos_secs as nat, track_secs as nat),
{
    let track_clock = dur_thmsfmt(track_secs, None);
    let long = track_clock.as_str().unicode_len() == 8;
    dur_thmsfmt(pos_secs, Some(long))
}

/// Whether a board row shows the track that plays, and whether it shows a
/// queued track.
pub fn row_flags(id: &str, queue: &PendingQueue, current: &Option<SoundCloudTrack>) -> (r: (bool, bool))
    ensures
        r.0 == (current is Some && current.unwrap().id@ == id@),
        r.1 == has_key(queue@, id@),
{
    let is_queued = queue.contains(id);
    let is_playing = match current {
        Some(c) => str_eq(c.id.as_str(), id),
        None => false,
    };
    (is_playing, is_queued)
}

/// The marker in front of a row of the queue panel: the next track to play
/// (the first row) is marked.
pub fn queue_row_prefix(index: usize) -> (r: &'static str)
    ensures
        index == 0 ==> r@ == "▶ "@,
        index != 0 ==> r@ == "  "@,
{
    if index == 0 {
        "▶ "
    } else {
        "  "
    }
}

} // verus!
