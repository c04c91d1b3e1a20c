use notemancy::app::{App, Effect, Polled};
use notemancy::commands::{handle_command_palette_key, Command};
use notemancy::documents::{ScannedFile, SearchResult};
use notemancy::keys::{KeyCode, KeyInput};
use notemancy::modes::{AppState, DetailViewMode, InputMode};

fn note(path: &str, title: &str) -> SearchResult {
    SearchResult { path: path.to_string(), title: title.to_string(), snippet: String::new() }
}

fn key(code: KeyCode) -> KeyInput {
    KeyInput::plain(code)
}

/// Scanned, indexed and on the search screen, editing the query.
fn search_screen() -> App {
    let mut app = App::new();
    assert!(app.start_scanning());
    app.process_scan_receiver(Polled::Ready(Ok((vec![], "0 files".to_string()))));
    assert_eq!(app.handle_key(KeyInput::ctrl('s')), Effect::StartIndexing);
    app.process_index_receiver(Polled::Ready(()));
    app
}

/// On the search screen in navigation mode, with the given results.
fn results_screen(results: Vec<SearchResult>) -> App {
    let mut app = search_screen();
    assert_eq!(app.handle_key(key(KeyCode::Char('n'))), Effect::RunQuery("n".to_string()));
    app.apply_search_results(Ok(results));
    assert_eq!(app.handle_key(key(KeyCode::Esc)), Effect::Nothing);
    assert_eq!(app.input_mode(), InputMode::Normal);
    app
}

#[test]
fn new_app_starts_idle() {
    let app = App::new();
    assert_eq!(app.state(), AppState::Starting);
    assert!(!app.running());
    assert_eq!(app.input_mode(), InputMode::Editing);
    assert_eq!(app.detail_view_mode(), DetailViewMode::Preview);
    assert_eq!(app.selected_search_index(), 0);
    assert!(app.search_results().is_empty());
    assert!(!app.is_loading_related_files());
    assert_eq!(app.spinner_char(), '\u{280b}');
}

#[test]
fn scan_then_index_reaches_search() {
    let mut app = App::new();
    assert!(app.start_scanning());
    assert_eq!(app.state(), AppState::Scanning);
    assert!(app.running());
    app.process_scan_receiver(Polled::Empty);
    assert_eq!(app.state(), AppState::Scanning);
    app.process_scan_receiver(Polled::Ready(Ok((vec![], "0 files".to_string()))));
    assert_eq!(app.state(), AppState::Preview);
    assert_eq!(app.scan_result(), &Some(Vec::<ScannedFile>::new()));
    assert_eq!(app.scan_summary(), &Some("0 files".to_string()));
    assert!(!app.scan_pending());
    assert_eq!(app.handle_key(KeyInput::ctrl('s')), Effect::StartIndexing);
    assert_eq!(app.state(), AppState::Indexing);
    assert!(app.index_pending());
    app.process_index_receiver(Polled::Empty);
    assert_eq!(app.state(), AppState::Indexing);
    app.process_index_receiver(Polled::Ready(()));
    assert_eq!(app.state(), AppState::Search);
    assert!(app.search_results().is_empty());
    assert_eq!(app.input_mode(), InputMode::Editing);
}

#[test]
fn scan_error_then_drop_falls_back_to_preview() {
    let mut app = App::new();
    app.start_scanning();
    app.process_scan_receiver(Polled::Ready(Err("no notes directory".to_string())));
    assert_eq!(app.state(), AppState::Preview);
    assert_eq!(app.scan_result(), &None);
    app.process_scan_receiver(Polled::Disconnected);
    assert_eq!(app.state(), AppState::Preview);
    assert_eq!(app.scan_result(), &None);
}

#[test]
fn scan_task_vanishing_falls_back_to_preview() {
    let mut app = App::new();
    app.start_scanning();
    app.process_scan_receiver(Polled::Disconnected);
    assert_eq!(app.state(), AppState::Preview);
    assert!(!app.scan_pending());
}

#[test]
fn index_task_vanishing_falls_back_to_preview() {
    let mut app = App::new();
    app.start_scanning();
    app.process_scan_receiver(Polled::Ready(Ok((vec![], "0 files".to_string()))));
    app.handle_key(KeyInput::ctrl('s'));
    app.process_index_receiver(Polled::Disconnected);
    assert_eq!(app.state(), AppState::Preview);
    assert!(!app.index_pending());
}

#[test]
fn start_scanning_only_from_starting() {
    let mut app = App::new();
    assert!(app.start_scanning());
    assert!(!app.start_scanning());
    assert_eq!(app.state(), AppState::Scanning);
}

#[test]
fn ctrl_s_is_ignored_while_scanning() {
    let mut app = App::new();
    app.start_scanning();
    assert_eq!(app.handle_key(KeyInput::ctrl('s')), Effect::Nothing);
    assert_eq!(app.state(), AppState::Scanning);
}

#[test]
fn ctrl_e_opens_config_editor_in_place() {
    let mut app = search_screen();
    assert_eq!(app.handle_key(KeyInput::ctrl('e')), Effect::OpenConfigEditor);
    assert_eq!(app.state(), AppState::Search);
    assert!(app.search_query().is_empty());
}

#[test]
fn released_keys_are_ignored() {
    let mut app = App::new();
    app.start_scanning();
    let mut k = key(KeyCode::Char('q'));
    k.pressed = false;
    assert_eq!(app.handle_key(k), Effect::Nothing);
    assert!(app.running());
}

#[test]
fn q_esc_and_ctrl_c_quit_outside_search() {
    for k in [key(KeyCode::Char('q')), key(KeyCode::Esc), KeyInput::ctrl('c'), KeyInput::ctrl('C')] {
        let mut app = App::new();
        app.start_scanning();
        app.process_scan_receiver(Polled::Ready(Ok((vec![], "0 files".to_string()))));
        assert_eq!(app.handle_key(k), Effect::Nothing);
        assert!(!app.running());
    }
}

#[test]
fn typing_runs_one_query_per_keystroke() {
    let mut app = search_screen();
    let mut queries = Vec::new();
    for c in ['f', 'o', 'o'] {
        match app.handle_key(key(KeyCode::Char(c))) {
            Effect::RunQuery(q) => queries.push(q),
            other => panic!("unexpected effect {:?}", other),
        }
        let n = queries.len();
        let answer: Vec<SearchResult> =
            (0..n).map(|i| note(&format!("notes/{}{}.md", c, i), "t")).collect();
        app.apply_search_results(Ok(answer.clone()));
        assert_eq!(app.search_results(), &answer);
        assert_eq!(app.selected_search_index(), 0);
    }
    assert_eq!(queries, vec!["f".to_string(), "fo".to_string(), "foo".to_string()]);
    assert_eq!(app.search_query(), "foo");
}

#[test]
fn backspace_to_empty_query_clears_results_without_a_query() {
    let mut app = search_screen();
    app.handle_key(key(KeyCode::Char('a')));
    app.apply_search_results(Ok(vec![note("a.md", "a")]));
    assert_eq!(app.handle_key(key(KeyCode::Backspace)), Effect::Nothing);
    assert!(app.search_query().is_empty());
    assert!(app.search_results().is_empty());
    assert_eq!(app.selected_search_index(), 0);
    assert_eq!(app.handle_key(key(KeyCode::Backspace)), Effect::Nothing);
    assert!(app.search_query().is_empty());
}

#[test]
fn backspace_runs_the_shorter_query() {
    let mut app = search_screen();
    app.handle_key(key(KeyCode::Char('a')));
    app.handle_key(key(KeyCode::Char('b')));
    assert_eq!(app.handle_key(key(KeyCode::Backspace)), Effect::RunQuery("a".to_string()));
}

#[test]
fn failed_query_leaves_no_results() {
    let mut app = results_screen(vec![note("a.md", "a"), note("b.md", "b")]);
    app.handle_key(key(KeyCode::Down));
    assert_eq!(app.selected_search_index(), 1);
    app.apply_search_results(Err("Search engine not configured!".to_string()));
    assert!(app.search_results().is_empty());
    assert_eq!(app.selected_search_index(), 0);
}

#[test]
fn enter_while_editing_runs_query_and_leaves_editing() {
    let mut app = search_screen();
    app.handle_key(key(KeyCode::Char('x')));
    assert_eq!(app.handle_key(key(KeyCode::Enter)), Effect::RunQuery("x".to_string()));
    assert_eq!(app.input_mode(), InputMode::Normal);
    assert_eq!(app.handle_key(key(KeyCode::Char('/'))), Effect::Nothing);
    assert_eq!(app.input_mode(), InputMode::Editing);
}

#[test]
fn up_and_down_clamp_at_the_ends() {
    let mut app = results_screen(vec![note("a.md", "a"), note("b.md", "b"), note("c.md", "c")]);
    app.handle_key(key(KeyCode::Up));
    assert_eq!(app.selected_search_index(), 0);
    app.handle_key(key(KeyCode::Down));
    app.handle_key(key(KeyCode::Down));
    assert_eq!(app.selected_search_index(), 2);
    app.handle_key(key(KeyCode::Down));
    assert_eq!(app.selected_search_index(), 2);
    app.handle_key(key(KeyCode::Up));
    assert_eq!(app.selected_search_index(), 1);
}

#[test]
fn up_and_down_on_empty_results_stay_at_zero() {
    let mut app = results_screen(vec![]);
    for code in [KeyCode::Down, KeyCode::Up, KeyCode::Down] {
        app.handle_key(key(code));
        assert_eq!(app.selected_search_index(), 0);
    }
}

#[test]
fn enter_opens_selected_note_and_returns_to_preview() {
    let mut app = results_screen(vec![note("a.md", "a"), note("b.md", "b")]);
    app.handle_key(key(KeyCode::Down));
    assert_eq!(app.handle_key(key(KeyCode::Enter)), Effect::OpenFile("b.md".to_string()));
    assert_eq!(app.state(), AppState::Preview);
}

#[test]
fn enter_without_results_does_nothing() {
    let mut app = results_screen(vec![]);
    assert_eq!(app.handle_key(key(KeyCode::Enter)), Effect::Nothing);
    assert_eq!(app.state(), AppState::Search);
}

#[test]
fn esc_leaves_search() {
    let mut app = results_screen(vec![note("a.md", "a")]);
    assert_eq!(app.handle_key(key(KeyCode::Esc)), Effect::Nothing);
    assert_eq!(app.state(), AppState::Preview);
    assert!(app.running());
}

#[test]
fn tab_issues_one_related_lookup() {
    let mut app = results_screen(vec![note("a.md", "a"), note("b.md", "b")]);
    assert_eq!(app.handle_key(key(KeyCode::Tab)), Effect::FindRelated("a.md".to_string()));
    assert_eq!(app.detail_view_mode(), DetailViewMode::RelatedFiles);
    assert!(app.related_files().is_empty());
    assert!(app.is_loading_related_files());
    assert_eq!(app.current_related_document_path(), &Some("a.md".to_string()));
    assert_eq!(app.process(), None);
    assert_eq!(app.process(), None);
}

#[test]
fn toggling_twice_looks_up_once() {
    let mut app = results_screen(vec![note("a.md", "a"), note("b.md", "b")]);
    let mut lookups = 0;
    for _ in 0..3 {
        if let Effect::FindRelated(_) = app.handle_key(key(KeyCode::Char('r'))) {
            lookups += 1;
        }
        if app.process().is_some() {
            lookups += 1;
        }
        app.process_related_files_receiver(Polled::Ready(Ok(vec![note("c.md", "c")])));
    }
    assert_eq!(app.detail_view_mode(), DetailViewMode::RelatedFiles);
    assert_eq!(lookups, 1);
    assert_eq!(app.related_files(), &vec![note("c.md", "c")]);
}

#[test]
fn selection_change_looks_up_once_after_completion() {
    let mut app = results_screen(vec![note("a.md", "a"), note("b.md", "b"), note("c.md", "c")]);
    assert_eq!(app.handle_key(key(KeyCode::Tab)), Effect::FindRelated("a.md".to_string()));
    app.handle_key(key(KeyCode::Down));
    app.handle_key(key(KeyCode::Down));
    assert_eq!(app.process(), None);
    app.process_related_files_receiver(Polled::Ready(Ok(vec![note("z.md", "z")])));
    assert!(!app.is_loading_related_files());
    assert_eq!(app.process(), Some("c.md".to_string()));
    assert!(app.related_files().is_empty());
    assert_eq!(app.process(), None);
    app.process_related_files_receiver(Polled::Ready(Ok(vec![note("y.md", "y")])));
    assert_eq!(app.process(), None);
    app.handle_key(key(KeyCode::Up));
    assert_eq!(app.process(), Some("b.md".to_string()));
}

#[test]
fn no_lookup_outside_related_view() {
    let mut app = results_screen(vec![note("a.md", "a")]);
    assert_eq!(app.process(), None);
    assert!(!app.is_loading_related_files());
}

#[test]
fn related_answers_update_the_panel() {
    let mut app = results_screen(vec![note("a.md", "a"), note("b.md", "b")]);
    app.handle_key(key(KeyCode::Tab));
    app.process_related_files_receiver(Polled::Empty);
    assert!(app.is_loading_related_files());
    app.process_related_files_receiver(Polled::Ready(Ok(vec![])));
    assert!(!app.is_loading_related_files());
    assert_eq!(
        app.related_files_error(),
        &Some("No related documents found that meet the similarity threshold.".to_string())
    );

    app.handle_key(key(KeyCode::Down));
    assert_eq!(app.process(), Some("b.md".to_string()));
    assert_eq!(app.related_files_error(), &None);
    app.process_related_files_receiver(Polled::Ready(Err("Could not read file".to_string())));
    assert_eq!(app.related_files_error(), &Some("Could not read file".to_string()));

    app.handle_key(key(KeyCode::Up));
    assert_eq!(app.process(), Some("a.md".to_string()));
    app.process_related_files_receiver(Polled::Disconnected);
    assert!(!app.is_loading_related_files());
    assert_eq!(
        app.related_files_error(),
        &Some("Failed to process related files request".to_string())
    );
    app.process_related_files_receiver(Polled::Ready(Ok(vec![note("late.md", "late")])));
    assert!(app.related_files().is_empty());
}

#[test]
fn ctrl_p_opens_palette_and_esc_closes_it() {
    let mut app = results_screen(vec![]);
    assert_eq!(app.handle_key(KeyInput::ctrl('p')), Effect::Nothing);
    assert_eq!(app.state(), AppState::CommandPalette);
    assert_eq!(app.command_items().len(), 4);
    assert_eq!(app.command_items()[0].name, "Search");
    assert_eq!(app.command_items()[3].action, Command::Quit);
    assert_eq!(app.selected_command_index(), 0);
    assert_eq!(app.handle_key(key(KeyCode::Esc)), Effect::Nothing);
    assert_eq!(app.state(), AppState::Preview);
}

#[test]
fn ctrl_p_while_editing_types_into_the_query() {
    let mut app = search_screen();
    assert_eq!(app.handle_key(KeyInput::ctrl('p')), Effect::RunQuery("p".to_string()));
    assert_eq!(app.state(), AppState::Search);
}

#[test]
fn palette_down_once_selects_index_vectors() {
    let mut app = App::new();
    app.start_scanning();
    app.process_scan_receiver(Polled::Ready(Ok((vec![], "0 files".to_string()))));
    app.handle_key(KeyInput::ctrl('p'));
    app.handle_key(key(KeyCode::Down));
    assert_eq!(app.selected_command_index(), 1);
    assert_eq!(app.command_items()[1].name, "Index Vectors");
}

#[test]
fn palette_quit_stops_running() {
    let mut app = App::new();
    app.start_scanning();
    app.process_scan_receiver(Polled::Ready(Ok((vec![], "0 files".to_string()))));
    app.handle_key(KeyInput::ctrl('p'));
    assert_eq!(app.state(), AppState::CommandPalette);
    for _ in 0..3 {
        app.handle_key(key(KeyCode::Down));
    }
    assert_eq!(app.command_items()[app.selected_command_index()].name, "Quit");
    assert!(app.running());
    assert_eq!(app.handle_key(key(KeyCode::Enter)), Effect::Nothing);
    assert!(!app.running());
}

#[test]
fn palette_selection_clamps() {
    let mut app = App::new();
    app.enter_command_palette();
    handle_command_palette_key(&mut app, key(KeyCode::Up));
    assert_eq!(app.selected_command_index(), 0);
    for _ in 0..6 {
        handle_command_palette_key(&mut app, key(KeyCode::Down));
    }
    assert_eq!(app.selected_command_index(), 3);
}

#[test]
fn palette_search_command_enters_search() {
    let mut app = App::new();
    app.enter_command_palette();
    assert_eq!(handle_command_palette_key(&mut app, key(KeyCode::Enter)), Effect::StartIndexing);
    assert_eq!(app.state(), AppState::Search);
    assert!(app.index_pending());
    app.process_index_receiver(Polled::Ready(()));
    assert_eq!(app.state(), AppState::Search);
}

#[test]
fn palette_config_command_returns_to_preview() {
    let mut app = App::new();
    app.enter_command_palette();
    handle_command_palette_key(&mut app, key(KeyCode::Down));
    handle_command_palette_key(&mut app, key(KeyCode::Down));
    assert_eq!(handle_command_palette_key(&mut app, key(KeyCode::Enter)), Effect::OpenConfigEditor);
    assert_eq!(app.state(), AppState::Preview);
}

fn vector_screen() -> App {
    let mut app = App::new();
    app.enter_command_palette();
    handle_command_palette_key(&mut app, key(KeyCode::Down));
    assert_eq!(
        handle_command_palette_key(&mut app, key(KeyCode::Enter)),
        Effect::StartVectorIndexing
    );
    assert_eq!(app.state(), AppState::IndexingVectors);
    assert_eq!(app.vector_indexing_status(), &Some("Starting vector indexing...".to_string()));
    assert!(app.polls_vector_status());
    app
}

#[test]
fn vector_success_is_shown_for_two_seconds() {
    let mut app = vector_screen();
    app.process_vector_indexing_receiver(Polled::Ready("Processing documents...".to_string()), 500);
    assert_eq!(app.vector_indexing_status(), &Some("Processing documents...".to_string()));
    assert!(!app.vector_indexing_complete());
    app.process_vector_indexing_receiver(Polled::Ready("SUCCESS".to_string()), 1000);
    assert_eq!(
        app.vector_indexing_status(),
        &Some("Vector indexing completed successfully!".to_string())
    );
    assert!(app.vector_indexing_complete());
    assert!(!app.polls_vector_status());
    app.process_vector_indexing_receiver(Polled::Disconnected, 1100);
    assert_eq!(app.state(), AppState::IndexingVectors);
    app.expire_vector_notice(2999);
    assert_eq!(app.state(), AppState::IndexingVectors);
    app.expire_vector_notice(3000);
    assert_eq!(app.state(), AppState::Preview);
}

#[test]
fn vector_error_is_shown_then_preview() {
    let mut app = vector_screen();
    app.process_vector_indexing_receiver(Polled::Ready("Error loading config: missing".to_string()), 10);
    assert_eq!(app.vector_indexing_status(), &Some("Error loading config: missing".to_string()));
    assert!(app.vector_indexing_complete());
    app.expire_vector_notice(2010);
    assert_eq!(app.state(), AppState::Preview);
}

#[test]
fn vector_task_vanishing_returns_to_preview() {
    let mut app = vector_screen();
    app.process_vector_indexing_receiver(Polled::Empty, 10);
    assert_eq!(app.state(), AppState::IndexingVectors);
    app.process_vector_indexing_receiver(Polled::Disconnected, 20);
    assert_eq!(app.state(), AppState::Preview);
    assert!(!app.vector_pending());
}

#[test]
fn spinner_moves_every_hundred_milliseconds_and_wraps() {
    let mut app = App::new();
    app.advance_spinner(99);
    assert_eq!(app.spinner_char(), '\u{280b}');
    app.advance_spinner(100);
    assert_eq!(app.spinner_char(), '\u{2819}');
    let mut now = 100;
    for _ in 0..9 {
        now += 100;
        app.advance_spinner(now);
    }
    assert_eq!(app.spinner_char(), '\u{280b}');
}

#[test]
fn no_second_index_task_while_one_is_outstanding() {
    let mut app = App::new();
    app.enter_command_palette();
    assert_eq!(handle_command_palette_key(&mut app, key(KeyCode::Enter)), Effect::StartIndexing);
    assert_eq!(app.state(), AppState::Search);
    assert_eq!(app.handle_key(KeyInput::ctrl('s')), Effect::Nothing);
    assert_eq!(app.state(), AppState::Indexing);
    app.process_index_receiver(Polled::Ready(()));
    assert_eq!(app.state(), AppState::Search);
    assert_eq!(app.handle_key(KeyInput::ctrl('s')), Effect::StartIndexing);
}

#[test]
fn no_second_vector_task_while_one_is_outstanding() {
    let mut app = vector_screen();
    app.handle_key(KeyInput::ctrl('p'));
    handle_command_palette_key(&mut app, key(KeyCode::Down));
    assert_eq!(handle_command_palette_key(&mut app, key(KeyCode::Enter)), Effect::Nothing);
    assert_eq!(app.state(), AppState::IndexingVectors);
    assert!(app.polls_vector_status());
}

#[test]
fn default_is_the_starting_state() {
    let app = App::default();
    assert_eq!(app.state(), AppState::Starting);
    assert!(!app.running());
    assert_eq!(app.input_mode(), InputMode::Editing);
    assert!(app.command_items().is_empty());
    assert_eq!(app.scan_result(), &None);
}

#[test]
fn ctrl_p_opens_palette_from_every_screen_but_query_editing() {
    let mut app = App::new();
    assert_eq!(app.handle_key(KeyInput::ctrl('p')), Effect::Nothing);
    assert_eq!(app.state(), AppState::CommandPalette);
    handle_command_palette_key(&mut app, key(KeyCode::Down));
    handle_command_palette_key(&mut app, key(KeyCode::Down));
    assert_eq!(app.selected_command_index(), 2);
    app.handle_key(KeyInput::ctrl('p'));
    assert_eq!(app.state(), AppState::CommandPalette);
    assert_eq!(app.selected_command_index(), 0);
    let names: Vec<String> = app.command_items().iter().map(|c| c.name.clone()).collect();
    assert_eq!(names, vec!["Search", "Index Vectors", "Open Config Editor", "Quit"]);
    assert!(!app.running());
}
