//! The state of the user interface and how keys and background events move
//! it: the stage, the status line, the search query and the board of tracks.
//! What the player or the network must do in answer is handed back as
//! actions.
use vstd::prelude::*;

use crate::player::current_view;
use crate::queue::{has_key, PendingEntry, PendingQueue};
use crate::random::{lemma_permutes_map, permutes, shuffle_vec, thread_rng};
use crate::text::{decimal, push_decimal};
use crate::track::{tracks_view, SoundCloudTrack, TrackView};

verus! {

/// Which part of the interface has the keyboard.
#[derive(Debug, Clone, Copy, PartialEq, Eq, Structural)]
pub enum Stage {
    /// The search bar: typed characters edit the query.
    Search,
    /// The board: keys move, queue and play tracks.
    Play,
    /// A search is running.
    Wait,
}

/// Who ends the program.
pub enum QuitAgent {
    User(String),
    System(String),
    Error(String),
}

/// What handling a key asks of the main loop.
pub enum ResolvedInput {
    Noop,
    Quit(QuitAgent),
}

/// The outcome of a search.
pub enum UiSearchUpdate {
    SearchResults(Vec<SoundCloudTrack>),
}

/// A message from background work to the interface.
pub enum UiEvent {
    MainStatus(String),
    Search(UiSearchUpdate),
}

/// The keys the interface tells apart.
#[derive(Debug, Clone, Copy, PartialEq, Eq, Structural)]
pub enum KeyCode {
    Delete,
    Esc,
    Enter,
    Char(char),
    Backspace,
    Up,
    Down,
    Left,
    Right,
    Other,
}

/// A key press with the modifiers held.
#[derive(Debug, Clone, Copy, PartialEq, Eq, Structural)]
pub struct KeyEvent {
    pub code: KeyCode,
    pub control: bool,
    pub alt: bool,
    pub shift: bool,
}

/// Work the interface asks of the player or of the network.
pub enum Action {
    /// Stop the track that plays (or drop the next queued one).
    SkipCurrent,
    /// Drop the track from the queue.
    Skip(SoundCloudTrack),
    /// Queue the track for playing.
    Submit(SoundCloudTrack),
    /// Empty the queue.
    SkipAll,
    /// Put the queue in a random order.
    ShuffleQueue,
    /// Exchange two queue positions.
    Reorder(usize, usize),
    /// Move the play position by a number of seconds.
    Seek(i64),
    Pause,
    Resume,
    /// Raise (`true`) or lower the volume by one step.
    Volume(bool),
    /// Search for tracks matching the query.
    Search(String),
}

/// An action, with its track or text as plain values.
pub enum ActionView {
    SkipCurrent,
    Skip(TrackView),
    Submit(TrackView),
    SkipAll,
    ShuffleQueue,
    Reorder(usize, usize),
    Seek(i64),
    Pause,
    Resume,
    Volume(bool),
    Search(Seq<char>),
}

impl View for Action {
    type V = ActionView;

    open spec fn view(&self) -> ActionView {
        match self {
            Action::SkipCurrent => ActionView::SkipCurrent,
            Action::Skip(t) => ActionView::Skip(t@),
            Action::Submit(t) => ActionView::Submit(t@),
            Action::SkipAll => ActionView::SkipAll,
            Action::ShuffleQueue => ActionView::ShuffleQueue,
            Action::Reorder(a, b) => ActionView::Reorder(*a, *b),
            Action::Seek(d) => ActionView::Seek(*d),
            Action::Pause => ActionView::Pause,
            Action::Resume => ActionView::Resume,
            Action::Volume(up) => ActionView::Volume(*up),
            Action::Search(q) => ActionView::Search(q@),
        }
    }
}

/// The views of a list of actions.
pub open spec fn actions_view(v: Seq<Action>) -> Seq<ActionView> {
    v.map_values(|a: Action| a@)
}

/// The search bar.
pub struct Search {
    pub query: String,
}

/// The board: the listed tracks, the selected row, and, while the queue is
/// shown in its place, the list and selection that it hides.
pub struct Board {
    pub store: Option<(usize, Vec<SoundCloudTrack>)>,
    pub items: Vec<SoundCloudTrack>,
    pub selected: usize,
    pub show_queue: bool,
}

/// The state of the interface.
pub struct Nocy {
    pub stage: Stage,
    pub status: String,
    pub title: String,
    pub search: Search,
    pub board: Board,
}

/// The state of the interface as plain values.
pub struct NocyView {
    pub stage: Stage,
    pub status: Seq<char>,
    pub title: Seq<char>,
    pub query: Seq<char>,
    pub items: Seq<TrackView>,
    pub selected: usize,
    pub show_queue: bool,
    pub store: Option<(usize, Seq<TrackView>)>,
}

impl View for Nocy {
    type V = NocyView;

    open spec fn view(&self) -> NocyView {
        NocyView {
            stage: self.stage,
            status: self.status@,
            title: self.title@,
            query: self.search.query@,
            items: tracks_view(self.board.items@),
            selected: self.board.selected,
            show_queue: self.board.show_queue,
            store: match self.board.store {
                Some((sel, items)) => Some((sel, tracks_view(items@))),
                None => None,
            },
        }
    }
}

/// The tracks of the queue, in queue order.
pub open spec fn queue_tracks(q: Seq<PendingEntry>) -> Seq<TrackView> {
    q.map_values(|e: PendingEntry| e.1)
}

/// `s` with another list of tracks on the board.
pub open spec fn with_items(s: NocyView, items: Seq<TrackView>) -> NocyView {
    NocyView { items, ..s }
}

/// `s` with another stage.
pub open spec fn with_stage(s: NocyView, stage: Stage) -> NocyView {
    NocyView { stage, ..s }
}

/// `s` with another query.
pub open spec fn with_query(s: NocyView, query: Seq<char>) -> NocyView {
    NocyView { query, ..s }
}

/// Showing the queue on the board (`enable`) or going back to the list it hid.
/// The queue is shown only when it has tracks and is not shown already.
pub open spec fn show_queue_step(s: NocyView, enable: bool, q: Seq<PendingEntry>) -> NocyView {
    if enable {
        if s.show_queue || q.len() == 0 {
            s
        } else {
            NocyView {
                items: queue_tracks(q),
                selected: if s.selected < q.len() - 1 { s.selected } else { (q.len() - 1) as usize },
                show_queue: true,
                store: Some((s.selected, s.items)),
                ..s
            }
        }
    } else {
        if !s.show_queue {
            s
        } else {
            match s.store {
                Some((sel, items)) => NocyView { items, selected: sel, show_queue: false, store: None, ..s },
                None => NocyView { show_queue: false, store: None, ..s },
            }
        }
    }
}

/// The tracks of `items` whose ids are queued, in their order.
pub open spec fn keep_queued(items: Seq<TrackView>, q: Seq<PendingEntry>) -> Seq<TrackView>
    decreases items.len(),
{
    if items.len() == 0 {
        items
    } else {
        let rest = keep_queued(items.drop_last(), q);
        if has_key(q, items.last().id) {
            rest.push(items.last())
        } else {
            rest
        }
    }
}

/// Whether the track that plays has the id `id`.
pub open spec fn plays(cur: Option<TrackView>, id: Seq<char>) -> bool {
    match cur {
        Some(c) => c.id == id,
        None => false,
    }
}

/// One submission for each listed track that is neither queued nor playing.
pub open spec fn add_all_actions(items: Seq<TrackView>, q: Seq<PendingEntry>, cur: Option<TrackView>) -> Seq<ActionView>
    decreases items.len(),
{
    if items.len() == 0 {
        Seq::empty()
    } else {
        let rest = add_all_actions(items.drop_last(), q, cur);
        let t = items.last();
        if !has_key(q, t.id) && !plays(cur, t.id) {
            rest.push(ActionView::Submit(t))
        } else {
            rest
        }
    }
}

/// The status line after a search found `n` tracks.
pub open spec fn found_status(n: nat) -> Seq<char> {
    "Found "@ + decimal(n) + " Tracks"@
}

/// The row that the selection moves to: up wraps from the first row to the
/// last, down wraps from the last to the first.
pub open spec fn step_index(selected: usize, len: nat, up: bool) -> usize {
    if up {
        if selected == 0 {
            (len - 1) as usize
        } else {
            (selected - 1) as usize
        }
    } else {
        ((selected + 1) % (len as int)) as usize
    }
}

/// The board with the tracks at `a` and `b` exchanged.
pub open spec fn swap_items(items: Seq<TrackView>, a: int, b: int) -> Seq<TrackView> {
    items.update(a, items[b]).update(b, items[a])
}

impl Nocy {
    /// The state the interface starts in.
    pub fn init() -> (s: Self)
        ensures
            s@.stage == Stage::Search,
            s@.status == " 404: Silence Not Found "@,
            s@.title == " Nocy Nocy "@,
            s@.query == Seq::<char>::empty(),
            s@.items == Seq::<TrackView>::empty(),
            s@.selected == 0,
            !s@.show_queue,
            s@.store is None,
    {
        let items: Vec<SoundCloudTrack> = Vec::new();
        let s = Nocy {
            stage: Stage::Search,
            status: String::from_str(" 404: Silence Not Found "),
            title: String::from_str(" Nocy Nocy "),
            search: Search { query: String::new() },
            board: Board { store: None, items, selected: 0, show_queue: false },
        };
        assert(tracks_view(s.board.items@) =~= Seq::<TrackView>::empty());
        s
    }

    /// Shows the queue on the board, or goes back to the list it hid.
    pub fn handle_show_queue(&mut self, enable: bool, queue: &PendingQueue)
        ensures
            final(self)@ == show_queue_step(old(self)@, enable, queue@),
    {
        if enable {
            if self.board.show_queue {
                return;
            }
            if queue.is_empty() {
                return;
            }
            let n = queue.len();
            let mut new_items: Vec<SoundCloudTrack> = Vec::new();
            let mut i: usize = 0;
            while i < n
                invariant
                    n == queue@.len(),
                    i <= n,
                    new_items@.len() == i,
                    forall|j: int| 0 <= j < i ==> #[trigger] new_items@[j]@ == queue@[j].1,
                decreases n - i,
            {
                let e = queue.entry_at(i);
                match e {
                    Some((_, t)) => {
                        new_items.push(t.clone());
                    },
                    None => {
                        assert(false);
                    },
                }
                i = i + 1;
            }
            assert(tracks_view(new_items@) =~= queue_tracks(queue@));
            let selected = self.board.selected;
            let last = new_items.len() - 1;
            let new_selected = if selected < last { selected } else { last };
            let store_selected = self.board.selected;
            self.board.selected = new_selected;
            let mut store_items = new_items;
            std::mem::swap(&mut self.board.items, &mut store_items);
            self.board.show_queue = true;
            self.board.store = Some((store_selected, store_items));
        } else {
            if !self.board.show_queue {
                return;
            }
            self.board.show_queue = false;
            if let Some((selected, items)) = self.board.store.take() {
                self.board.selected = selected;
                self.board.items = items;
            }
        }
    }

    /// Takes in a message from background work.
    pub fn apply_ui_event(&mut self, e: UiEvent)
        ensures
            match e {
                UiEvent::MainStatus(m) => final(self)@ == NocyView { status: m@, ..old(self)@ },
                UiEvent::Search(UiSearchUpdate::SearchResults(v)) => final(self)@ == NocyView {
                    stage: Stage::Play,
                    status: found_status(v@.len()),
                    items: tracks_view(v@),
                    ..old(self)@
                },
            },
    {
        match e {
            UiEvent::MainStatus(m) => {
                self.status = m;
            },
            UiEvent::Search(UiSearchUpdate::SearchResults(v)) => {
                self.stage = Stage::Play;
                let mut status = String::new();
                status.append("Found ");
                push_decimal(&mut status, v.len() as u64);
                status.append(" Tracks");
                self.status = status;
                self.board.items = v;
            },
        }
    }

    /// Keeps a shown queue in step with the player's queue: it is left when
    /// the queue has emptied, and loses the tracks that left the queue.
    pub fn exec_data_update(&mut self, queue: &PendingQueue)
        ensures
            final(self)@ == data_update_step(old(self)@, queue@),
    {
        if self.board.show_queue {
            if queue.len() == 0 {
                self.handle_show_queue(false, queue);
            } else if queue.len() != self.board.items.len() {
                let kept = retain_queued(&self.board.items, queue);
                self.board.items = kept;
            }
        }
    }

    /// Leaves the queue view, then: in the board, skips what plays or is
    /// queued, or, with nothing to skip, goes back to an empty search; in the
    /// search bar, clears the query, or quits when it is empty.
    pub fn handle_back(&mut self, queue: &PendingQueue, current: &Option<SoundCloudTrack>) -> (r: (ResolvedInput, Vec<Action>))
        ensures
            final(self)@ == back_step(old(self)@, queue@, current_view(*current)).0,
            quit_by_user_or_noop(r.0),
            resolved_quit(r.0) == back_step(old(self)@, queue@, current_view(*current)).1,
            actions_view(r.1@) == back_step(old(self)@, queue@, current_view(*current)).2,
    {
        let mut acts: Vec<Action> = Vec::new();
        if self.stage == Stage::Wait {
            assert(actions_view(acts@) =~= Seq::<ActionView>::empty());
            return (ResolvedInput::Noop, acts);
        }
        self.handle_show_queue(false, queue);
        if self.stage == Stage::Play {
            if current.is_some() || queue.len() > 0 {
                acts.push(Action::SkipCurrent);
                assert(actions_view(acts@) =~= seq![ActionView::SkipCurrent]);
            } else {
                self.stage = Stage::Search;
                self.board.items.clear();
                assert(tracks_view(self.board.items@) =~= Seq::<TrackView>::empty());
                assert(actions_view(acts@) =~= Seq::<ActionView>::empty());
            }
        } else {
            if !self.search.query.as_str().is_empty() {
                self.search.query = String::new();
                assert(actions_view(acts@) =~= Seq::<ActionView>::empty());
            } else {
                assert(actions_view(acts@) =~= Seq::<ActionView>::empty());
                return (ResolvedInput::Quit(QuitAgent::User(String::from_str("user back pressed"))), acts);
            }
        }
        (ResolvedInput::Noop, acts)
    }

    /// Resumes a paused track, or pauses a playing one.
    pub fn handle_pause(&self, paused: bool) -> (a: Action)
        ensures
            a@ == (if paused { ActionView::Resume } else { ActionView::Pause }),
    {
        if paused {
            Action::Resume
        } else {
            Action::Pause
        }
    }

    /// Raises or lowers the volume by one step.
    pub fn handle_vol(&self, up: bool) -> (a: Action)
        ensures
            a@ == ActionView::Volume(up),
    {
        Action::Volume(up)
    }

    /// Moves the keyboard between the board and the search bar. The board is
    /// entered only when it lists tracks; nothing moves while a search runs.
    pub fn handle_toggle_search(&mut self)
        ensures
            final(self)@ == toggle_search_step(old(self)@),
    {
        if self.stage == Stage::Wait {
            return;
        }
        if self.stage == Stage::Play {
            self.stage = Stage::Search;
        } else if self.stage == Stage::Search && self.board.items.len() != 0 {
            self.stage = Stage::Play;
        }
    }

    /// Leaves the queue view and starts a search for the query, which is
    /// taken out of the search bar; the interface waits for the outcome.
    pub fn handle_search(&mut self, queue: &PendingQueue) -> (a: Action)
        ensures
            final(self)@ == search_step(old(self)@, queue@).0,
            seq![a@] == search_step(old(self)@, queue@).2,
    {
        self.handle_show_queue(false, queue);
        let mut query = String::new();
        std::mem::swap(&mut query, &mut self.search.query);
        self.stage = Stage::Wait;
        Action::Search(query)
    }

    /// Shuffles the board (`alt` unset) or asks the player to shuffle the queue.
    pub fn handle_shuffle(&mut self, alt: bool) -> (r: Vec<Action>)
        ensures
            alt ==> final(self)@ == old(self)@ && actions_view(r@) == seq![ActionView::ShuffleQueue],
            !alt ==> {
                &&& final(self)@ == with_items(old(self)@, final(self)@.items)
                &&& permutes(final(self)@.items, old(self)@.items)
                &&& actions_view(r@) == Seq::<ActionView>::empty()
            },
    {
        let mut acts: Vec<Action> = Vec::new();
        if !alt {
            let mut rng = thread_rng();
            let ghost before = self.board.items@;
            shuffle_vec(&mut self.board.items, &mut rng);
            proof {
                lemma_permutes_map(self.board.items@, before, |t: SoundCloudTrack| t@);
            }
            assert(actions_view(acts@) =~= Seq::<ActionView>::empty());
        } else {
            acts.push(Action::ShuffleQueue);
            assert(actions_view(acts@) =~= seq![ActionView::ShuffleQueue]);
        }
        acts
    }

    /// Submits every listed track that is neither queued nor playing.
    pub fn handle_add_all(&self, queue: &PendingQueue, current: &Option<SoundCloudTrack>) -> (r: Vec<Action>)
        ensures
            actions_view(r@) == add_all_actions(self@.items, queue@, current_view(*current)),
    {
        let ghost items = self@.items;
        let ghost cur = current_view(*current);
        let mut acts: Vec<Action> = Vec::new();
        let n = self.board.items.len();
        let mut i: usize = 0;
        while i < n
            invariant
                n == self.board.items@.len(),
                items == tracks_view(self.board.items@),
                cur == current_view(*current),
                i <= n,
                actions_view(acts@) == add_all_actions(items.subrange(0, i as int), queue@, cur),
            decreases n - i,
        {
            let t = &self.board.items[i];
            let queued = queue.contains(t.id.as_str());
            let playing = match current {
                Some(c) => c.id == t.id,
                None => false,
            };
            assert(items.subrange(0, i + 1).drop_last() =~= items.subrange(0, i as int));
            assert(items.subrange(0, i + 1).last() == t@);
            if !queued && !playing {
                acts.push(Action::Submit(t.clone()));
            }
            assert(actions_view(acts@) =~= add_all_actions(items.subrange(0, i + 1), queue@, cur));
            i = i + 1;
        }
        assert(items.subrange(0, n as int) =~= items);
        acts
    }

    /// Asks the player to empty the queue.
    pub fn handle_remove_all(&self) -> (a: Action)
        ensures
            a@ == ActionView::SkipAll,
    {
        Action::SkipAll
    }

    /// The selected track leaves the queue when it is queued, else it is
    /// submitted for playing.
    pub fn handle_select(&self, queue: &PendingQueue) -> (a: Action)
        requires
            self.board.selected < self.board.items@.len(),
        ensures
            seq![a@] == select_step(self@, queue@).2,
    {
        let t = &self.board.items[self.board.selected];
        if queue.contains(t.id.as_str()) {
            Action::Skip(t.clone())
        } else {
            Action::Submit(t.clone())
        }
    }

    /// Types a character into the query, or (`None`) erases the last one.
    pub fn handle_input_char(&mut self, ch: Option<char>)
        ensures
            final(self)@ == input_char_step(old(self)@, ch),
    {
        match ch {
            Some(c) => crate::text::push_char(&mut self.search.query, c),
            None => {
                let _ = crate::text::pop_char(&mut self.search.query);
            },
        }
    }

    /// Seeks five seconds back (`left`) or forward.
    pub fn handle_seek(&self, left: bool) -> (a: Action)
        ensures
            a@ == ActionView::Seek(if left { -5i64 } else { 5i64 }),
    {
        if left {
            Action::Seek(-5)
        } else {
            Action::Seek(5)
        }
    }

    /// Moves the selected track one row up or down, wrapping around, and
    /// the selection with it; a shown queue is reordered the same way.
    pub fn handle_reorder(&mut self, up: bool) -> (r: Vec<Action>)
        requires
            old(self).board.items@.len() > 0,
            old(self).board.selected < old(self).board.items@.len(),
        ensures
            final(self)@ == reorder_step(old(self)@, up).0,
            actions_view(r@) == reorder_step(old(self)@, up).2,
    {
        let selected = self.board.selected;
        let len = self.board.items.len();
        let to = if up {
            if selected == 0 { len - 1 } else { selected - 1 }
        } else {
            (selected + 1) % len
        };
        let ghost before = self.board.items@;
        swap_tracks(&mut self.board.items, selected, to);
        assert(tracks_view(self.board.items@) =~= swap_items(tracks_view(before), selected as int, to as int));
        let mut acts: Vec<Action> = Vec::new();
        if self.board.show_queue {
            acts.push(Action::Reorder(selected, to));
            assert(actions_view(acts@) =~= seq![ActionView::Reorder(selected, to)]);
        } else {
            assert(actions_view(acts@) =~= Seq::<ActionView>::empty());
        }
        self.board.selected = to;
        acts
    }

    /// Moves the selection one row up or down, wrapping around.
    pub fn handle_navigate(&mut self, up: bool)
        requires
            old(self).board.items@.len() > 0,
            !up ==> old(self).board.selected < usize::MAX,
        ensures
            final(self)@ == (NocyView { selected: step_index(old(self)@.selected, old(self)@.items.len(), up), ..old(self)@ }),
    {
        let len = self.board.items.len();
        self.board.selected = if up {
            if self.board.selected == 0 { len - 1 } else { self.board.selected - 1 }
        } else {
            (self.board.selected + 1) % len
        };
    }
}

/// Exchanges the tracks at two positions of `v`.
fn swap_tracks(v: &mut Vec<SoundCloudTrack>, a: usize, b: usize)
    requires
        a < old(v)@.len(),
        b < old(v)@.len(),
    ensures
        tracks_view(final(v)@) == swap_items(tracks_view(old(v)@), a as int, b as int),
{
    let ta = v[a].clone();
    let tb = v[b].clone();
    v[a] = tb;
    v[b] = ta;
    assert(tracks_view(v@) =~= swap_items(tracks_view(old(v)@), a as int, b as int));
}

/// The tracks of `items` that are queued, in their order.
fn retain_queued(items: &Vec<SoundCloudTrack>, queue: &PendingQueue) -> (r: Vec<SoundCloudTrack>)
    ensures
        tracks_view(r@) == keep_queued(tracks_view(items@), queue@),
{
    let ghost iv = tracks_view(items@);
    let mut r: Vec<SoundCloudTrack> = Vec::new();
    let n = items.len();
    let mut i: usize = 0;
    while i < n
        invariant
            n == items@.len(),
            iv == tracks_view(items@),
            i <= n,
            tracks_view(r@) == keep_queued(iv.subrange(0, i as int), queue@),
        decreases n - i,
    {
        let t = &items[i];
        assert(iv.subrange(0, i + 1).drop_last() =~= iv.subrange(0, i as int));
        assert(iv.subrange(0, i + 1).last() == t@);
        if queue.contains(t.id.as_str()) {
            r.push(t.clone());
        }
        assert(tracks_view(r@) =~= keep_queued(iv.subrange(0, i + 1), queue@));
        i = i + 1;
    }
    assert(iv.subrange(0, n as int) =~= iv);
    r
}

/// Whether a resolved key goes on, or quits on the user's behalf.
pub open spec fn quit_by_user_or_noop(r: ResolvedInput) -> bool {
    match r {
        ResolvedInput::Noop => true,
        ResolvedInput::Quit(QuitAgent::User(_)) => true,
        _ => false,
    }
}

/// The quit message of a resolved key (`None` when the program goes on).
pub open spec fn resolved_quit(r: ResolvedInput) -> Option<Seq<char>> {
    match r {
        ResolvedInput::Noop => None,
        ResolvedInput::Quit(QuitAgent::User(m)) => Some(m@),
        ResolvedInput::Quit(QuitAgent::System(m)) => Some(m@),
        ResolvedInput::Quit(QuitAgent::Error(m)) => Some(m@),
    }
}

/// What keeping a shown queue in step with the player's queue does.
pub open spec fn data_update_step(s: NocyView, q: Seq<PendingEntry>) -> NocyView {
    if !s.show_queue {
        s
    } else if q.len() == 0 {
        show_queue_step(s, false, q)
    } else if q.len() != s.items.len() {
        with_items(s, keep_queued(s.items, q))
    } else {
        s
    }
}

/// What the back key does: the new state, the quit message, the actions.
pub open spec fn back_step(s: NocyView, q: Seq<PendingEntry>, cur: Option<TrackView>) -> (NocyView, Option<Seq<char>>, Seq<ActionView>) {
    if s.stage == Stage::Wait {
        (s, None, Seq::empty())
    } else {
        let s1 = show_queue_step(s, false, q);
        if s.stage == Stage::Play {
            if cur is Some || q.len() > 0 {
                (s1, None, seq![ActionView::SkipCurrent])
            } else {
                (NocyView { stage: Stage::Search, items: Seq::empty(), ..s1 }, None, Seq::empty())
            }
        } else if s.query.len() > 0 {
            (with_query(s1, Seq::empty()), None, Seq::empty())
        } else {
            (s1, Some("user back pressed"@), Seq::empty())
        }
    }
}

/// What toggling the search bar does.
pub open spec fn toggle_search_step(s: NocyView) -> NocyView {
    if s.stage == Stage::Play {
        with_stage(s, Stage::Search)
    } else if s.stage == Stage::Search && s.items.len() > 0 {
        with_stage(s, Stage::Play)
    } else {
        s
    }
}

/// What starting a search does.
pub open spec fn search_step(s: NocyView, q: Seq<PendingEntry>) -> (NocyView, Option<Seq<char>>, Seq<ActionView>) {
    let s1 = show_queue_step(s, false, q);
    (NocyView { stage: Stage::Wait, query: Seq::empty(), ..s1 }, None, seq![ActionView::Search(s1.query)])
}

/// What selecting the board's row does.
pub open spec fn select_step(s: NocyView, q: Seq<PendingEntry>) -> (NocyView, Option<Seq<char>>, Seq<ActionView>) {
    let t = s.items[s.selected as int];
    if has_key(q, t.id) {
        (s, None, seq![ActionView::Skip(t)])
    } else {
        (s, None, seq![ActionView::Submit(t)])
    }
}

/// What typing (`Some`) or erasing (`None`) a character does.
pub open spec fn input_char_step(s: NocyView, ch: Option<char>) -> NocyView {
    match ch {
        Some(c) => with_query(s, s.query.push(c)),
        None => if s.query.len() > 0 {
            with_query(s, s.query.drop_last())
        } else {
            s
        },
    }
}

/// What moving the selected track does.
pub open spec fn reorder_step(s: NocyView, up: bool) -> (NocyView, Option<Seq<char>>, Seq<ActionView>) {
    let to = step_index(s.selected, s.items.len(), up);
    let acts = if s.show_queue {
        seq![ActionView::Reorder(s.selected, to)]
    } else {
        Seq::empty()
    };
    (NocyView { items: swap_items(s.items, s.selected as int, to as int), selected: to, ..s }, None, acts)
}

/// The keys that shuffle the board: `Ctrl r` without `Alt`.
pub open spec fn shuffles_board(key: KeyEvent) -> bool {
    key.code == KeyCode::Char('r') && key.control && !key.alt
}

/// The keys on which handling does not fail: selecting needs a selected row
/// on the board, moving the selection needs a non-empty board (and, to move a
/// track, a selected row).
pub open spec fn input_defined(s: NocyView, key: KeyEvent) -> bool {
    match key.code {
        KeyCode::Enter => s.stage == Stage::Play ==> s.selected < s.items.len(),
        KeyCode::Up | KeyCode::Down => s.stage == Stage::Play ==> {
            &&& s.items.len() > 0
            &&& key.shift ==> s.selected < s.items.len()
            &&& (!key.shift && key.code == KeyCode::Down) ==> s.selected < usize::MAX
        },
        _ => true,
    }
}

/// What a character key does.
pub open spec fn char_step(s: NocyView, key: KeyEvent, c: char, q: Seq<PendingEntry>, cur: Option<TrackView>, paused: bool) -> (NocyView, Option<Seq<char>>, Seq<ActionView>) {
    if c == '/' {
        (toggle_search_step(s), None, Seq::empty())
    } else if (c == 'a' || c == 'z') && key.control {
        if c == 'a' {
            (s, None, add_all_actions(s.items, q, cur))
        } else {
            (s, None, seq![ActionView::SkipAll])
        }
    } else if c == 'r' && key.control {
        if key.alt {
            (s, None, seq![ActionView::ShuffleQueue])
        } else {
            (s, None, Seq::empty())
        }
    } else if c == '~' && s.stage == Stage::Play {
        (show_queue_step(s, !s.show_queue, q), None, Seq::empty())
    } else if c == '-' || c == '=' {
        (s, None, seq![ActionView::Volume(c == '=')])
    } else if c == ' ' && s.stage == Stage::Play {
        (s, None, seq![if paused { ActionView::Resume } else { ActionView::Pause }])
    } else {
        (input_char_step(s, Some(c)), None, Seq::empty())
    }
}

/// What a key does to the interface: the new state, the quit message, and
/// the actions. Shuffling the board is not a function of the state; its
/// outcome is stated apart (see `Nocy::resolve_input_event`), and here it
/// leaves the state as it is.
pub open spec fn input_step(s: NocyView, key: KeyEvent, q: Seq<PendingEntry>, cur: Option<TrackView>, paused: bool) -> (NocyView, Option<Seq<char>>, Seq<ActionView>) {
    match key.code {
        KeyCode::Delete => (s, Some("user quit"@), Seq::empty()),
        KeyCode::Esc => back_step(s, q, cur),
        KeyCode::Enter => if s.stage == Stage::Search {
            search_step(s, q)
        } else if s.stage == Stage::Play {
            select_step(s, q)
        } else {
            (s, None, Seq::empty())
        },
        KeyCode::Char(c) => char_step(s, key, c, q, cur, paused),
        KeyCode::Backspace => (input_char_step(s, None), None, Seq::empty()),
        KeyCode::Up | KeyCode::Down => if s.stage == Stage::Play {
            let up = key.code == KeyCode::Up;
            if key.shift {
                reorder_step(s, up)
            } else {
                (NocyView { selected: step_index(s.selected, s.items.len(), up), ..s }, None, Seq::empty())
            }
        } else {
            (s, None, Seq::empty())
        },
        KeyCode::Left => (s, None, seq![ActionView::Seek(-5i64)]),
        KeyCode::Right => (s, None, seq![ActionView::Seek(5i64)]),
        KeyCode::Other => (s, None, Seq::empty()),
    }
}

impl Nocy {
    /// Whether handling the key cannot fail (see `input_defined`).
    pub fn is_input_defined(&self, key: KeyEvent) -> (b: bool)
        ensures
            b == input_defined(self@, key),
    {
        match key.code {
            KeyCode::Enter => self.stage != Stage::Play || self.board.selected < self.board.items.len(),
            KeyCode::Up | KeyCode::Down => {
                if self.stage != Stage::Play {
                    true
                } else if self.board.items.len() == 0 {
                    false
                } else if key.shift {
                    self.board.selected < self.board.items.len()
                } else if key.code == KeyCode::Down {
                    self.board.selected < usize::MAX
                } else {
                    true
                }
            },
            _ => true,
        }
    }

    /// Handles a key press: the state moves, and what the main loop and the
    /// player must do is handed back.
    pub fn resolve_input_event(
        &mut self,
        key: KeyEvent,
        queue: &PendingQueue,
        current: &Option<SoundCloudTrack>,
        paused: bool,
    ) -> (r: (ResolvedInput, Vec<Action>))
        requires
            input_defined(old(self)@, key),
        ensures
            !shuffles_board(key) ==> final(self)@ == input_step(old(self)@, key, queue@, current_view(*current), paused).0,
            shuffles_board(key) ==> {
                &&& final(self)@ == with_items(old(self)@, final(self)@.items)
                &&& permutes(final(self)@.items, old(self)@.items)
            },
            quit_by_user_or_noop(r.0),
            resolved_quit(r.0) == input_step(old(self)@, key, queue@, current_view(*current), paused).1,
            actions_view(r.1@) == input_step(old(self)@, key, queue@, current_view(*current), paused).2,
    {
        proof {
            reveal_strlit("user quit");
        }
        let mut acts: Vec<Action> = Vec::new();
        match key.code {
            KeyCode::Delete => {
                assert(actions_view(acts@) =~= Seq::<ActionView>::empty());
                return (ResolvedInput::Quit(QuitAgent::User(String::from_str("user quit"))), acts);
            },
            KeyCode::Esc => {
                return self.handle_back(queue, current);
            },
            KeyCode::Enter => {
                if self.stage == Stage::Search {
                    let a = self.handle_search(queue);
                    acts.push(a);
                } else if self.stage == Stage::Play {
                    let a = self.handle_select(queue);
                    acts.push(a);
                }
            },
            KeyCode::Char(c) => {
                if c == '/' {
                    self.handle_toggle_search();
                } else if (c == 'a' || c == 'z') && key.control {
                    if c == 'a' {
                        acts = self.handle_add_all(queue, current);
                    } else {
                        acts.push(self.handle_remove_all());
                    }
                } else if c == 'r' && key.control {
                    acts = self.handle_shuffle(key.alt);
                } else if c == '~' && self.stage == Stage::Play {
                    let enable = !self.board.show_queue;
                    self.handle_show_queue(enable, queue);
                } else if c == '-' || c == '=' {
                    acts.push(self.handle_vol(c == '='));
                } else if c == ' ' && self.stage == Stage::Play {
                    acts.push(self.handle_pause(paused));
                } else {
                    self.handle_input_char(Some(c));
                }
            },
            KeyCode::Backspace => {
                self.handle_input_char(None);
            },
            KeyCode::Up | KeyCode::Down => {
                if self.stage == Stage::Play {
                    let is_up = key.code == KeyCode::Up;
                    if key.shift {
                        acts = self.handle_reorder(is_up);
                    } else {
                        self.handle_navigate(is_up);
                    }
                }
            },
            KeyCode::Left | KeyCode::Right => {
                acts.push(self.handle_seek(key.code == KeyCode::Left));
            },
            KeyCode::Other => {},
        }
        assert(actions_view(acts@) =~= input_step(old(self)@, key, queue@, current_view(*current), paused).2);
        (ResolvedInput::Noop, acts)
    }
}

/// The board keeps a hidden list only while the queue is shown in its place.
pub open spec fn board_consistent(s: NocyView) -> bool {
    !s.show_queue ==> s.store is None
}

/// The starting state is consistent, and every key, every message from
/// background work and every update from the queue keeps the board
/// consistent.
pub proof fn law_board_consistent(s: NocyView, key: KeyEvent, q: Seq<PendingEntry>, cur: Option<TrackView>, paused: bool, m: Seq<char>, items: Seq<TrackView>)
    requires
        board_consistent(s),
    ensures
        board_consistent(input_step(s, key, q, cur, paused).0),
        board_consistent(with_items(s, items)),
        board_consistent(data_update_step(s, q)),
        board_consistent((NocyView { status: m, ..s })),
        board_consistent((NocyView { stage: Stage::Play, status: m, items, ..s })),
{
}

/// Showing the queue and then going back restores the board: its list, its
/// selection and its stage, whatever the queue holds by then.
pub proof fn law_show_hide_queue(s: NocyView, q: Seq<PendingEntry>, q2: Seq<PendingEntry>)
    requires
        board_consistent(s),
        !s.show_queue,
        q.len() > 0,
    ensures
        show_queue_step(show_queue_step(s, true, q), false, q2) == s,
{
}

/// Moving the selection up and then down (or down and then up) comes back
/// to the same row.
pub proof fn law_navigate_back(selected: usize, len: nat)
    requires
        selected < len,
        len <= usize::MAX,
    ensures
        step_index(step_index(selected, len, true), len, false) == selected,
        step_index(step_index(selected, len, false), len, true) == selected,
{
    if selected + 1 < len {
        assert((selected + 1) % (len as int) == selected + 1) by (nonlinear_arith)
            requires selected + 1 < len;
    } else {
        assert((selected + 1) % (len as int) == 0) by (nonlinear_arith)
            requires selected + 1 == len, len > 0;
    }
    if selected == 0 {
        assert(((len - 1) + 1) % (len as int) == 0) by (nonlinear_arith)
            requires len > 0;
    } else {
        assert(((selected - 1) + 1) % (len as int) == selected) by (nonlinear_arith)
            requires 0 < selected < len;
    }
}

/// Moving the selected track up and then down (or down and then up) leaves
/// the board as it was.
pub proof fn law_reorder_back(s: NocyView, up: bool)
    requires
        s.items.len() > 0,
        s.selected < s.items.len(),
        s.items.len() <= usize::MAX,
    ensures
        reorder_step(reorder_step(s, up).0, !up).0 == s,
{
    law_navigate_back(s.selected, s.items.len());
    let to = step_index(s.selected, s.items.len(), up);
    assert(0 <= to < s.items.len()) by {
        if !up {
            assert((s.selected + 1) % (s.items.len() as int) < s.items.len()) by (nonlinear_arith)
                requires s.items.len() > 0;
        }
    }
    let s1 = reorder_step(s, up).0;
    assert(s1.items.len() == s.items.len());
    assert(step_index(to, s.items.len(), !up) == s.selected);
    assert(swap_items(swap_items(s.items, s.selected as int, to as int), to as int, s.selected as int) =~= s.items);
}

/// Typing a character and erasing it leaves the query as it was.
pub proof fn law_type_erase(s: NocyView, c: char)
    ensures
        input_char_step(input_char_step(s, Some(c)), None) == s,
{
    assert(s.query.push(c).drop_last() =~= s.query);
}

/// Toggling the search bar twice, from a board that lists tracks, comes back
/// to the same stage.
pub proof fn law_toggle_twice(s: NocyView)
    requires
        s.items.len() > 0,
    ensures
        toggle_search_step(toggle_search_step(s)) == s,
{
}

/// Adding everything submits only tracks that are neither queued nor
/// playing, and each listed track that is neither.
pub proof fn law_add_all_fresh(items: Seq<TrackView>, q: Seq<PendingEntry>, cur: Option<TrackView>)
    ensures
        forall|i: int| 0 <= i < add_all_actions(items, q, cur).len() ==> {
            let a = #[trigger] add_all_actions(items, q, cur)[i];
            a matches ActionView::Submit(t) && items.contains(t) && !has_key(q, t.id) && !plays(cur, t.id)
        },
        forall|t: TrackView| #[trigger] items.contains(t) && !has_key(q, t.id) && !plays(cur, t.id) ==> add_all_actions(items, q, cur).contains(ActionView::Submit(t)),
    decreases items.len(),
{
    if items.len() > 0 {
        let init = items.drop_last();
        law_add_all_fresh(init, q, cur);
        let rest = add_all_actions(init, q, cur);
        assert forall|i: int| 0 <= i < add_all_actions(items, q, cur).len() implies {
            let a = #[trigger] add_all_actions(items, q, cur)[i];
            a matches ActionView::Submit(t) && items.contains(t) && !has_key(q, t.id) && !plays(cur, t.id)
        } by {
            if i < rest.len() {
                assert(add_all_actions(items, q, cur)[i] == rest[i]);
                let a = rest[i];
                if let ActionView::Submit(t) = a {
                    let k = choose|k: int| 0 <= k < init.len() && init[k] == t;
                    assert(items[k] == t);
                }
            } else {
                assert(items[items.len() - 1] == items.last());
            }
        }
        assert forall|t: TrackView| #[trigger] items.contains(t) && !has_key(q, t.id) && !plays(cur, t.id) implies add_all_actions(items, q, cur).contains(ActionView::Submit(t)) by {
            let k = choose|k: int| 0 <= k < items.len() && items[k] == t;
            if k < init.len() {
                assert(init[k] == t);
                assert(init.contains(t));
                let j = choose|j: int| 0 <= j < rest.len() && rest[j] == ActionView::Submit(t);
                assert(add_all_actions(items, q, cur)[j] == rest[j]);
            } else {
                let all = add_all_actions(items, q, cur);
                assert(all[all.len() - 1] == ActionView::Submit(t));
            }
        }
    }
}

/// The delete key quits, whatever the state, and changes nothing.
pub proof fn law_delete_quits(s: NocyView, key: KeyEvent, q: Seq<PendingEntry>, cur: Option<TrackView>, paused: bool)
    requires
        key.code == KeyCode::Delete,
    ensures
        input_step(s, key, q, cur, paused) == (s, Some("user quit"@), Seq::<ActionView>::empty()),
{
}

/// How long the main loop waits for a key while the user is active, in
/// milliseconds (one frame at sixty frames a second).
pub const POLL_TIMEOUT_DEFAULT: u64 = 16;

/// How long the main loop waits for a key once the user is idle.
pub const POLL_TIMEOUT_IDLE: u64 = 950;

/// After how many milliseconds without the idle clock being restarted the
/// user counts as idle.
pub const IDLE_AFTER_MS: u64 = 3000;

/// Whether the user is idle, and how long the main loop waits for a key.
pub struct PollState {
    pub is_idle: bool,
    pub poll_timeout: u64,
}

impl PollState {
    /// The wait matches the idleness.
    pub open spec fn wf(&self) -> bool {
        self.poll_timeout == if self.is_idle { POLL_TIMEOUT_IDLE } else { POLL_TIMEOUT_DEFAULT }
    }

    /// An active user.
    pub fn new() -> (p: Self)
        ensures
            p.wf(),
            !p.is_idle,
    {
        PollState { is_idle: false, poll_timeout: POLL_TIMEOUT_DEFAULT }
    }

    /// An event arrived: an idle user becomes active again, and the idle
    /// clock must be restarted (`true`); an active user's clock runs on.
    pub fn on_event(&mut self) -> (restart: bool)
        requires
            old(self).wf(),
        ensures
            final(self).wf(),
            !final(self).is_idle,
            restart == old(self).is_idle,
    {
        if self.is_idle {
            self.is_idle = false;
            self.poll_timeout = POLL_TIMEOUT_DEFAULT;
            true
        } else {
            false
        }
    }

    /// `elapsed_ms` have passed since the idle clock started: an active user
    /// becomes idle once that reaches `IDLE_AFTER_MS`.
    pub fn on_tick(&mut self, elapsed_ms: u64)
        requires
            old(self).wf(),
        ensures
            final(self).wf(),
            final(self).is_idle == (old(self).is_idle || elapsed_ms >= IDLE_AFTER_MS),
    {
        if !self.is_idle && elapsed_ms >= IDLE_AFTER_MS {
            self.is_idle = true;
            self.poll_timeout = POLL_TIMEOUT_IDLE;
        }
    }
}

} // verus!
