use nocy::app::{PollState, IDLE_AFTER_MS, POLL_TIMEOUT_DEFAULT, POLL_TIMEOUT_IDLE};
use nocy::app::{Action, KeyCode, KeyEvent, Nocy, QuitAgent, ResolvedInput, Stage, UiEvent, UiSearchUpdate};
use nocy::queue::PendingQueue;
use nocy::track::SoundCloudTrack;

fn track(id: &str, title: &str) -> SoundCloudTrack {
    SoundCloudTrack {
        id: id.to_string(),
        title: title.to_string(),
        artist: "Artist".to_string(),
        permalink_url: String::new(),
        duration: 30,
        created_at: "Unknown".to_string(),
        track_authorization: None,
        transcodings: None,
    }
}

fn key(code: KeyCode) -> KeyEvent {
    KeyEvent { code, control: false, alt: false, shift: false }
}

fn ctrl(c: char) -> KeyEvent {
    KeyEvent { code: KeyCode::Char(c), control: true, alt: false, shift: false }
}

fn titles(n: &Nocy) -> Vec<String> {
    n.board.items.iter().map(|t| t.title.clone()).collect()
}

fn with_results(n: usize) -> Nocy {
    let mut app = Nocy::init();
    let v = (0..n).map(|i| track(&format!("id{}", i), &format!("T{}", i))).collect();
    app.apply_ui_event(UiEvent::Search(UiSearchUpdate::SearchResults(v)));
    app
}

fn press(app: &mut Nocy, k: KeyEvent, q: &PendingQueue, cur: &Option<SoundCloudTrack>, paused: bool) -> (ResolvedInput, Vec<Action>) {
    assert!(app.is_input_defined(k));
    app.resolve_input_event(k, q, cur, paused)
}

fn quit_message(r: &ResolvedInput) -> Option<String> {
    match r {
        ResolvedInput::Noop => None,
        ResolvedInput::Quit(QuitAgent::User(m)) => Some(m.clone()),
        ResolvedInput::Quit(QuitAgent::System(m)) => Some(m.clone()),
        ResolvedInput::Quit(QuitAgent::Error(m)) => Some(m.clone()),
    }
}

#[test]
fn init_state() {
    let app = Nocy::init();
    assert_eq!(app.stage, Stage::Search);
    assert_eq!(app.status, " 404: Silence Not Found ");
    assert_eq!(app.title, " Nocy Nocy ");
    assert_eq!(app.search.query, "");
    assert!(app.board.items.is_empty());
    assert_eq!(app.board.selected, 0);
    assert!(!app.board.show_queue);
    assert!(app.board.store.is_none());
}

#[test]
fn search_results_enter_board() {
    let app = with_results(3);
    assert_eq!(app.stage, Stage::Play);
    assert_eq!(app.status, "Found 3 Tracks");
    assert_eq!(titles(&app), vec!["T0", "T1", "T2"]);
}

#[test]
fn status_message_replaces_status() {
    let mut app = Nocy::init();
    app.apply_ui_event(UiEvent::MainStatus("network down".to_string()));
    assert_eq!(app.status, "network down");
    assert_eq!(app.stage, Stage::Search);
}

#[test]
fn delete_quits() {
    let mut app = with_results(2);
    let q = PendingQueue::new();
    let (r, acts) = press(&mut app, key(KeyCode::Delete), &q, &None, false);
    assert_eq!(quit_message(&r), Some("user quit".to_string()));
    assert!(acts.is_empty());
    assert_eq!(app.stage, Stage::Play);
}

#[test]
fn typing_and_erasing_edit_query() {
    let mut app = Nocy::init();
    let q = PendingQueue::new();
    for c in "j97".chars() {
        press(&mut app, key(KeyCode::Char(c)), &q, &None, false);
    }
    assert_eq!(app.search.query, "j97");
    press(&mut app, key(KeyCode::Backspace), &q, &None, false);
    assert_eq!(app.search.query, "j9");
    press(&mut app, key(KeyCode::Char('x')), &q, &None, false);
    press(&mut app, key(KeyCode::Backspace), &q, &None, false);
    assert_eq!(app.search.query, "j9");
    let mut empty = Nocy::init();
    press(&mut empty, key(KeyCode::Backspace), &q, &None, false);
    assert_eq!(empty.search.query, "");
}

#[test]
fn enter_in_search_starts_search_and_waits() {
    let mut app = Nocy::init();
    let q = PendingQueue::new();
    for c in "lofi".chars() {
        press(&mut app, key(KeyCode::Char(c)), &q, &None, false);
    }
    let (r, acts) = press(&mut app, key(KeyCode::Enter), &q, &None, false);
    assert!(quit_message(&r).is_none());
    assert_eq!(acts.len(), 1);
    match &acts[0] {
        Action::Search(s) => assert_eq!(s, "lofi"),
        _ => panic!("expected a search"),
    }
    assert_eq!(app.stage, Stage::Wait);
    assert_eq!(app.search.query, "");
    let (_, acts) = press(&mut app, key(KeyCode::Esc), &q, &None, false);
    assert!(acts.is_empty());
    assert_eq!(app.stage, Stage::Wait);
    press(&mut app, key(KeyCode::Char('/')), &q, &None, false);
    assert_eq!(app.stage, Stage::Wait);
}

#[test]
fn enter_on_board_submits_or_skips() {
    let mut app = with_results(2);
    let mut q = PendingQueue::new();
    let (_, acts) = press(&mut app, key(KeyCode::Enter), &q, &None, false);
    match &acts[0] {
        Action::Submit(t) => assert_eq!(t.id, "id0"),
        _ => panic!("expected a submission"),
    }
    q.push("id0".to_string(), track("id0", "T0"));
    let (_, acts) = press(&mut app, key(KeyCode::Enter), &q, &None, false);
    match &acts[0] {
        Action::Skip(t) => assert_eq!(t.id, "id0"),
        _ => panic!("expected a skip"),
    }
}

#[test]
fn enter_on_empty_board_is_not_defined() {
    let app = with_results(0);
    assert_eq!(app.stage, Stage::Play);
    assert!(!app.is_input_defined(key(KeyCode::Enter)));
    assert!(!app.is_input_defined(key(KeyCode::Up)));
    assert!(app.is_input_defined(key(KeyCode::Left)));
}

#[test]
fn slash_toggles_search_bar() {
    let mut app = with_results(2);
    let q = PendingQueue::new();
    press(&mut app, key(KeyCode::Char('/')), &q, &None, false);
    assert_eq!(app.stage, Stage::Search);
    press(&mut app, key(KeyCode::Char('/')), &q, &None, false);
    assert_eq!(app.stage, Stage::Play);
    let mut fresh = Nocy::init();
    press(&mut fresh, key(KeyCode::Char('/')), &q, &None, false);
    assert_eq!(fresh.stage, Stage::Search);
}

#[test]
fn arrows_navigate_with_wrap() {
    let mut app = with_results(3);
    let q = PendingQueue::new();
    press(&mut app, key(KeyCode::Up), &q, &None, false);
    assert_eq!(app.board.selected, 2);
    press(&mut app, key(KeyCode::Down), &q, &None, false);
    assert_eq!(app.board.selected, 0);
    press(&mut app, key(KeyCode::Down), &q, &None, false);
    assert_eq!(app.board.selected, 1);
    press(&mut app, key(KeyCode::Up), &q, &None, false);
    assert_eq!(app.board.selected, 0);
}

#[test]
fn shift_arrows_reorder_and_undo() {
    let mut app = with_results(3);
    let q = PendingQueue::new();
    let up = KeyEvent { code: KeyCode::Up, control: false, alt: false, shift: true };
    let down = KeyEvent { code: KeyCode::Down, control: false, alt: false, shift: true };
    let (_, acts) = press(&mut app, down, &q, &None, false);
    assert!(acts.is_empty());
    assert_eq!(titles(&app), vec!["T1", "T0", "T2"]);
    assert_eq!(app.board.selected, 1);
    press(&mut app, up, &q, &None, false);
    assert_eq!(titles(&app), vec!["T0", "T1", "T2"]);
    assert_eq!(app.board.selected, 0);
    press(&mut app, up, &q, &None, false);
    assert_eq!(titles(&app), vec!["T2", "T1", "T0"]);
    assert_eq!(app.board.selected, 2);
}

#[test]
fn ctrl_a_adds_fresh_tracks_only() {
    let mut app = with_results(4);
    let mut q = PendingQueue::new();
    q.push("id1".to_string(), track("id1", "T1"));
    let cur = Some(track("id2", "T2"));
    let (_, acts) = press(&mut app, ctrl('a'), &q, &cur, false);
    let submitted: Vec<String> = acts
        .iter()
        .map(|a| match a {
            Action::Submit(t) => t.id.clone(),
            _ => panic!("expected submissions"),
        })
        .collect();
    assert_eq!(submitted, vec!["id0", "id3"]);
}

#[test]
fn ctrl_z_skips_all() {
    let mut app = with_results(1);
    let q = PendingQueue::new();
    let (_, acts) = press(&mut app, ctrl('z'), &q, &None, false);
    assert!(matches!(acts[..], [Action::SkipAll]));
}

#[test]
fn ctrl_r_shuffles_board_ctrl_alt_r_queue() {
    let mut app = with_results(30);
    let q = PendingQueue::new();
    let (_, acts) = press(&mut app, ctrl('r'), &q, &None, false);
    assert!(acts.is_empty());
    let mut t = titles(&app);
    t.sort();
    let mut want: Vec<String> = (0..30).map(|i| format!("T{}", i)).collect();
    want.sort();
    assert_eq!(t, want);
    let k = KeyEvent { code: KeyCode::Char('r'), control: true, alt: true, shift: false };
    let (_, acts) = press(&mut app, k, &q, &None, false);
    assert!(matches!(acts[..], [Action::ShuffleQueue]));
}

#[test]
fn tilde_shows_queue_and_back_restores() {
    let mut app = with_results(5);
    let mut q = PendingQueue::new();
    q.push("q1".to_string(), track("q1", "Q1"));
    q.push("q2".to_string(), track("q2", "Q2"));
    press(&mut app, key(KeyCode::Down), &q, &None, false);
    press(&mut app, key(KeyCode::Down), &q, &None, false);
    press(&mut app, key(KeyCode::Down), &q, &None, false);
    assert_eq!(app.board.selected, 3);
    press(&mut app, key(KeyCode::Char('~')), &q, &None, false);
    assert!(app.board.show_queue);
    assert_eq!(titles(&app), vec!["Q1", "Q2"]);
    assert_eq!(app.board.selected, 1);
    press(&mut app, key(KeyCode::Char('~')), &q, &None, false);
    assert!(!app.board.show_queue);
    assert_eq!(titles(&app), vec!["T0", "T1", "T2", "T3", "T4"]);
    assert_eq!(app.board.selected, 3);
    assert!(app.board.store.is_none());
}

#[test]
fn tilde_with_empty_queue_does_nothing() {
    let mut app = with_results(2);
    let q = PendingQueue::new();
    press(&mut app, key(KeyCode::Char('~')), &q, &None, false);
    assert!(!app.board.show_queue);
    assert_eq!(titles(&app), vec!["T0", "T1"]);
}

#[test]
fn reorder_in_queue_view_reorders_queue() {
    let mut app = with_results(2);
    let mut q = PendingQueue::new();
    q.push("q1".to_string(), track("q1", "Q1"));
    q.push("q2".to_string(), track("q2", "Q2"));
    press(&mut app, key(KeyCode::Char('~')), &q, &None, false);
    let down = KeyEvent { code: KeyCode::Down, control: false, alt: false, shift: true };
    let (_, acts) = press(&mut app, down, &q, &None, false);
    assert!(matches!(acts[..], [Action::Reorder(0, 1)]));
    assert_eq!(titles(&app), vec!["Q2", "Q1"]);
}

#[test]
fn data_update_follows_queue() {
    let mut app = with_results(2);
    let mut q = PendingQueue::new();
    for id in ["q1", "q2", "q3"] {
        q.push(id.to_string(), track(id, id));
    }
    press(&mut app, key(KeyCode::Char('~')), &q, &None, false);
    q.remove("q2");
    app.exec_data_update(&q);
    assert_eq!(titles(&app), vec!["q1", "q3"]);
    q.clear();
    app.exec_data_update(&q);
    assert!(!app.board.show_queue);
    assert_eq!(titles(&app), vec!["T0", "T1"]);
}

#[test]
fn minus_equal_volume_space_pause() {
    let mut app = with_results(1);
    let q = PendingQueue::new();
    let (_, acts) = press(&mut app, key(KeyCode::Char('-')), &q, &None, false);
    assert!(matches!(acts[..], [Action::Volume(false)]));
    let (_, acts) = press(&mut app, key(KeyCode::Char('=')), &q, &None, false);
    assert!(matches!(acts[..], [Action::Volume(true)]));
    let (_, acts) = press(&mut app, key(KeyCode::Char(' ')), &q, &None, false);
    assert!(matches!(acts[..], [Action::Pause]));
    let (_, acts) = press(&mut app, key(KeyCode::Char(' ')), &q, &None, true);
    assert!(matches!(acts[..], [Action::Resume]));
    assert_eq!(app.search.query, "");
}

#[test]
fn space_in_search_bar_types() {
    let mut app = Nocy::init();
    let q = PendingQueue::new();
    press(&mut app, key(KeyCode::Char(' ')), &q, &None, false);
    press(&mut app, key(KeyCode::Char('~')), &q, &None, false);
    assert_eq!(app.search.query, " ~");
}

#[test]
fn left_right_seek() {
    let mut app = with_results(1);
    let q = PendingQueue::new();
    let (_, acts) = press(&mut app, key(KeyCode::Left), &q, &None, false);
    assert!(matches!(acts[..], [Action::Seek(-5)]));
    let (_, acts) = press(&mut app, key(KeyCode::Right), &q, &None, false);
    assert!(matches!(acts[..], [Action::Seek(5)]));
}

#[test]
fn esc_on_board_skips_or_returns_to_search() {
    let mut app = with_results(2);
    let mut q = PendingQueue::new();
    let cur = Some(track("x", "X"));
    let (r, acts) = press(&mut app, key(KeyCode::Esc), &q, &cur, false);
    assert!(quit_message(&r).is_none());
    assert!(matches!(acts[..], [Action::SkipCurrent]));
    q.push("a".to_string(), track("a", "A"));
    let (_, acts) = press(&mut app, key(KeyCode::Esc), &q, &None, false);
    assert!(matches!(acts[..], [Action::SkipCurrent]));
    q.clear();
    let (_, acts) = press(&mut app, key(KeyCode::Esc), &q, &None, false);
    assert!(acts.is_empty());
    assert_eq!(app.stage, Stage::Search);
    assert!(app.board.items.is_empty());
}

#[test]
fn esc_in_search_clears_then_quits() {
    let mut app = Nocy::init();
    let q = PendingQueue::new();
    press(&mut app, key(KeyCode::Char('a')), &q, &None, false);
    let (r, _) = press(&mut app, key(KeyCode::Esc), &q, &None, false);
    assert!(quit_message(&r).is_none());
    assert_eq!(app.search.query, "");
    let (r, _) = press(&mut app, key(KeyCode::Esc), &q, &None, false);
    assert_eq!(quit_message(&r), Some("user back pressed".to_string()));
}

#[test]
fn other_keys_do_nothing() {
    let mut app = with_results(2);
    let q = PendingQueue::new();
    let (r, acts) = press(&mut app, key(KeyCode::Other), &q, &None, false);
    assert!(quit_message(&r).is_none());
    assert!(acts.is_empty());
    assert_eq!(titles(&app), vec!["T0", "T1"]);
}

#[test]
fn poll_state_idles_and_wakes() {
    let mut p = PollState::new();
    assert!(!p.is_idle);
    assert_eq!(p.poll_timeout, POLL_TIMEOUT_DEFAULT);
    assert_eq!(POLL_TIMEOUT_DEFAULT, 16);
    assert!(!p.on_event());
    p.on_tick(IDLE_AFTER_MS - 1);
    assert!(!p.is_idle);
    p.on_tick(3000);
    assert!(p.is_idle);
    assert_eq!(p.poll_timeout, POLL_TIMEOUT_IDLE);
    assert_eq!(p.poll_timeout, 950);
    assert!(p.on_event());
    assert!(!p.is_idle);
    assert_eq!(p.poll_timeout, 16);
}

#[test]
fn show_then_hide_queue_restores_board() {
    let mut app = with_results(4);
    let mut q = PendingQueue::new();
    q.push("q".to_string(), track("q", "Q"));
    app.board.selected = 2;
    app.handle_show_queue(true, &q);
    assert_eq!(app.board.selected, 0);
    app.handle_show_queue(true, &q);
    assert!(app.board.show_queue);
    q.clear();
    app.handle_show_queue(false, &q);
    assert_eq!(titles(&app), vec!["T0", "T1", "T2", "T3"]);
    assert_eq!(app.board.selected, 2);
    assert_eq!(app.stage, Stage::Play);
}

#[test]
fn quits_are_on_the_users_behalf() {
    let mut app = Nocy::init();
    let q = PendingQueue::new();
    let (r, _) = press(&mut app, key(KeyCode::Delete), &q, &None, false);
    assert!(matches!(r, ResolvedInput::Quit(QuitAgent::User(_))));
    let (r, _) = press(&mut app, key(KeyCode::Esc), &q, &None, false);
    assert!(matches!(r, ResolvedInput::Quit(QuitAgent::User(ref m)) if m == "user back pressed"));
}
