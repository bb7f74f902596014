use flac_player::control::ControlAction;
use flac_player::control::ControlLoop;
use flac_player::control::KeyPress;
use flac_player::files::SelectError;
use flac_player::files::filter_music_files;
use flac_player::files::is_music_file;
use flac_player::files::select_track;
use flac_player::progress::ProgressSnapshot;
use flac_player::progress::render_progress;
use flac_player::session::ExitPath;
use flac_player::session::TermCommand;
use flac_player::session::TerminalSession;
use flac_player::state::PlaybackState;
use flac_player::worker::SinkCommand;
use flac_player::worker::worker_tick;

fn rendered(elapsed: u64, total: u64) -> String {
    render_progress(ProgressSnapshot { elapsed, total }).expect("total is non-zero")
}

fn bar(filled: usize) -> String {
    format!("[{}{}]", "=".repeat(filled), "-".repeat(50 - filled))
}

#[test]
fn renders_halfway_bar_exactly() {
    assert_eq!(rendered(30, 60), format!("{} 00:30/01:00", bar(25)));
}

#[test]
fn renders_empty_and_full_bar() {
    assert_eq!(rendered(0, 60), format!("{} 00:00/01:00", bar(0)));
    assert_eq!(rendered(60, 60), format!("{} 01:00/01:00", bar(50)));
}

#[test]
fn renders_floor_of_ratio() {
    // 7/9 of 50 cells is 38.88..., so 38 cells are filled.
    assert_eq!(rendered(7, 9), format!("{} 00:07/00:09", bar(38)));
}

#[test]
fn minutes_keep_all_digits_past_ninety_nine() {
    assert_eq!(rendered(3661, 6061), format!("{} 61:01/101:01", bar(30)));
}

#[test]
fn unknown_total_renders_nothing() {
    assert!(render_progress(ProgressSnapshot { elapsed: 5, total: 0 }).is_none());
}

#[test]
fn elapsed_beyond_total_shows_full_bar() {
    assert_eq!(rendered(75, 60), format!("{} 01:00/01:00", bar(50)));
}

#[test]
fn filled_cells_monotone_in_elapsed() {
    let total: u64 = 97;
    let mut previous: usize = 0;
    for elapsed in 0..=total {
        let line = rendered(elapsed, total);
        let filled = line.chars().filter(|c| *c == '=').count();
        assert!(filled >= previous);
        assert_eq!(filled, (elapsed as usize * 50) / total as usize);
        previous = filled;
    }
}

#[test]
fn toggle_even_count_restores_odd_count_flips() {
    let mut state = PlaybackState::new();
    assert!(!state.is_paused());
    state.toggle();
    assert!(state.is_paused());
    state.toggle();
    assert!(!state.is_paused());
    for _ in 0..7 {
        state.toggle();
    }
    assert!(state.is_paused());
}

#[test]
fn interleaving_order_does_not_change_outcome() {
    // Three toggles from one context and two from another, in two different
    // interleavings: only the count matters.
    let mut first = PlaybackState::new();
    for _ in 0..3 {
        first.toggle();
    }
    for _ in 0..2 {
        first.toggle();
    }
    let mut second = PlaybackState::new();
    for _ in 0..2 {
        second.toggle();
    }
    for _ in 0..3 {
        second.toggle();
    }
    assert_eq!(first.is_paused(), second.is_paused());
    assert!(first.is_paused());
}

#[test]
fn session_emits_setup_and_teardown_sequences() {
    let (mut session, setup) = TerminalSession::begin();
    assert_eq!(
        setup,
        vec![
            TermCommand::EnterAlternateScreen,
            TermCommand::EnableRawMode,
            TermCommand::HideCursor,
        ]
    );
    assert!(session.active());
    let teardown = session.close(ExitPath::QuitKey);
    assert_eq!(
        teardown,
        vec![
            TermCommand::DisableRawMode,
            TermCommand::LeaveAlternateScreen,
            TermCommand::ShowCursor,
        ]
    );
    assert!(!session.active());
}

#[test]
fn failure_path_tears_down_like_quit_path() {
    let (mut quit, _) = TerminalSession::begin();
    let (mut fail, _) = TerminalSession::begin();
    assert_eq!(quit.close(ExitPath::QuitKey), fail.close(ExitPath::Failure));
}

#[test]
fn filter_keeps_flac_files_in_order() {
    let paths = vec![
        String::from("root/one/two/a.flac"),
        String::from("root/one/two/b.flac"),
        String::from("root/one/two/c.mp3"),
    ];
    let tracks = filter_music_files(&paths);
    assert_eq!(
        tracks,
        vec![
            String::from("root/one/two/a.flac"),
            String::from("root/one/two/b.flac"),
        ]
    );
}

#[test]
fn extension_rule_cases() {
    assert!(is_music_file("a.flac"));
    assert!(is_music_file("dir/sub/a.flac"));
    assert!(is_music_file("b..flac"));
    assert!(!is_music_file(".flac"));
    assert!(!is_music_file("dir/.flac"));
    assert!(!is_music_file("c.mp3"));
    assert!(!is_music_file("noextension"));
    assert!(!is_music_file("upper.FLAC"));
    assert!(!is_music_file("dir.flac/inner"));
    assert!(!is_music_file(""));
}

#[test]
fn out_of_range_selection_is_an_error() {
    let files = vec![String::from("a.flac"), String::from("b.flac")];
    assert_eq!(select_track(&files, 2), Err(SelectError::IndexOutOfRange));
    assert_eq!(select_track(&files, 17), Err(SelectError::IndexOutOfRange));
}

#[test]
fn in_range_selection_returns_the_track() {
    let files = vec![String::from("a.flac"), String::from("b.flac")];
    assert_eq!(select_track(&files, 1), Ok(String::from("b.flac")));
}

#[test]
fn empty_list_rejects_every_selection() {
    let files: Vec<String> = Vec::new();
    assert_eq!(select_track(&files, 0), Err(SelectError::IndexOutOfRange));
}

#[test]
fn pause_key_toggles_shared_state() {
    let mut control = ControlLoop::new();
    let mut state = PlaybackState::new();
    let snap = ProgressSnapshot { elapsed: 1, total: 10 };
    let action = control.step(Some(KeyPress::Char('p')), &mut state, snap);
    assert!(matches!(action, ControlAction::ToggleApplied));
    assert!(state.is_paused());
}

#[test]
fn quit_key_is_the_only_exit_transition() {
    let mut control = ControlLoop::new();
    let mut state = PlaybackState::new();
    let snap = ProgressSnapshot { elapsed: 1, total: 10 };
    assert!(matches!(
        control.step(Some(KeyPress::Other), &mut state, snap),
        ControlAction::Show(_)
    ));
    assert!(matches!(
        control.step(Some(KeyPress::Char('x')), &mut state, snap),
        ControlAction::Show(_)
    ));
    assert!(matches!(control.step(None, &mut state, snap), ControlAction::Show(_)));
    assert!(!state.is_paused());
    let action = control.step(Some(KeyPress::Esc), &mut state, snap);
    assert!(matches!(action, ControlAction::Quit));
}

#[test]
fn idle_tick_renders_the_snapshot() {
    let mut control = ControlLoop::new();
    let mut state = PlaybackState::new();
    let snap = ProgressSnapshot { elapsed: 30, total: 60 };
    match control.step(None, &mut state, snap) {
        ControlAction::Show(line) => assert_eq!(line, rendered(30, 60)),
        other => panic!("expected a rendered line, got {:?}", other),
    }
}

#[test]
fn idle_tick_with_unknown_total_skips_render() {
    let mut control = ControlLoop::new();
    let mut state = PlaybackState::new();
    let snap = ProgressSnapshot { elapsed: 30, total: 0 };
    assert!(matches!(control.step(None, &mut state, snap), ControlAction::SkipRender));
}

#[test]
fn worker_tick_mirrors_pause_intent() {
    let mut state = PlaybackState::new();
    let tick = worker_tick(&state, 10, 100, false);
    assert_eq!(tick.command, SinkCommand::ResumeSink);
    state.toggle();
    let tick = worker_tick(&state, 10, 100, false);
    assert_eq!(tick.command, SinkCommand::PauseSink);
}

#[test]
fn worker_tick_publishes_snapshot_and_finishes() {
    let state = PlaybackState::new();
    let tick = worker_tick(&state, 50, 100, false);
    assert_eq!(tick.snapshot, ProgressSnapshot { elapsed: 50, total: 100 });
    assert!(!tick.finished);
    assert!(worker_tick(&state, 100, 100, false).finished);
    assert!(worker_tick(&state, 50, 100, true).finished);
}

#[test]
fn exhausted_source_ends_durationless_track() {
    let state = PlaybackState::new();
    assert!(worker_tick(&state, 0, 0, true).finished);
    assert!(!worker_tick(&state, 0, 0, false).finished);
    assert!(!worker_tick(&state, 500, 0, false).finished);
}
