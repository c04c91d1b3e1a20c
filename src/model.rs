use vstd::prelude::*;

use crate::commands::{menu_commands, Command};
use crate::documents::{ScannedFile, SearchResult};
use crate::keys::{KeyCode, KeyInput};
use crate::modes::{AppState, DetailViewMode, InputMode};
use crate::text::is_prefix_of;

verus! {

/// The state of the application as a mathematical value.
pub struct AppModel {
    /// The control loop keeps going.
    pub running: bool,
    pub state: AppState,
    pub input_mode: InputMode,
    pub detail_view_mode: DetailViewMode,
    /// The frames of the busy indicator and the one shown.
    pub spinner_chars: Seq<char>,
    pub spinner_idx: int,
    /// When the busy indicator last moved, in milliseconds of the loop's clock.
    pub last_tick_ms: u64,
    /// A scan task is outstanding.
    pub scan_pending: bool,
    pub scan_result: Option<Seq<ScannedFile>>,
    pub scan_summary: Option<Seq<char>>,
    /// A search-index task is outstanding.
    pub index_pending: bool,
    pub search_query: Seq<char>,
    pub search_results: Seq<SearchResult>,
    pub selected_search_index: int,
    pub related_files: Seq<SearchResult>,
    /// A related-files lookup is outstanding.
    pub is_loading_related_files: bool,
    pub related_files_error: Option<Seq<char>>,
    /// The path of the note the last related-files lookup was issued for.
    pub current_related_document_path: Option<Seq<char>>,
    pub command_items: Seq<Command>,
    pub selected_command_index: int,
    /// A vector-index task is outstanding.
    pub vector_pending: bool,
    pub vector_indexing_status: Option<Seq<char>>,
    pub vector_indexing_complete: bool,
    /// When vector indexing ended, in milliseconds of the loop's clock.
    pub vector_indexing_success_time: Option<u64>,
}

/// What the caller must do after a transition.
pub enum EffectView {
    Nothing,
    StartIndexing,
    StartVectorIndexing,
    FindRelated(Seq<char>),
    RunQuery(Seq<char>),
    OpenFile(Seq<char>),
    OpenConfigEditor,
}

/// `i` selects an entry of a list of `len` entries, or is 0 when the list is empty.
pub open spec fn valid_selection(i: int, len: int) -> bool {
    (0 <= i < len) || (len == 0 && i == 0)
}

impl AppModel {
    /// The invariant of every reachable state.
    pub open spec fn wf(self) -> bool {
        &&& 0 < self.spinner_chars.len()
        &&& 0 <= self.spinner_idx < self.spinner_chars.len()
        &&& valid_selection(self.selected_search_index, self.search_results.len() as int)
        &&& valid_selection(self.selected_command_index, self.command_items.len() as int)
    }
}

pub open spec fn spinner_frames() -> Seq<char> {
    seq![
        '\u{280b}',
        '\u{2819}',
        '\u{2839}',
        '\u{2838}',
        '\u{283c}',
        '\u{2834}',
        '\u{2826}',
        '\u{2827}',
        '\u{2807}',
        '\u{280f}',
    ]
}

/// The state before the control loop starts.
pub open spec fn initial_model() -> AppModel {
    AppModel {
        running: false,
        state: AppState::Starting,
        input_mode: InputMode::Editing,
        detail_view_mode: DetailViewMode::Preview,
        spinner_chars: spinner_frames(),
        spinner_idx: 0,
        last_tick_ms: 0,
        scan_pending: false,
        scan_result: None,
        scan_summary: None,
        index_pending: false,
        search_query: seq![],
        search_results: seq![],
        selected_search_index: 0,
        related_files: seq![],
        is_loading_related_files: false,
        related_files_error: None,
        current_related_document_path: None,
        command_items: seq![],
        selected_command_index: 0,
        vector_pending: false,
        vector_indexing_status: None,
        vector_indexing_complete: false,
        vector_indexing_success_time: None,
    }
}

/// The most results a query asks of the search engine.
pub const SEARCH_LIMIT: usize = 20;

/// How often the busy indicator moves, in milliseconds.
pub const SPINNER_INTERVAL_MS: u64 = 100;

/// How long the end of vector indexing stays on screen, in milliseconds.
pub const VECTOR_NOTICE_MS: u64 = 2000;

/// Milliseconds from `since` to `now`, or 0 if the clock reads earlier.
pub open spec fn elapsed(since: u64, now: u64) -> int {
    if now >= since {
        now - since
    } else {
        0
    }
}

// ---- entering screens ----

/// The scan task has been spawned.
pub open spec fn start_scanning_step(s: AppModel) -> (AppModel, bool) {
    if s.state == AppState::Starting {
        (AppModel { running: true, state: AppState::Scanning, scan_pending: true, ..s }, true)
    } else {
        (AppModel { running: true, ..s }, false)
    }
}

/// The search screen waits for the search index, whose task is outstanding.
pub open spec fn enter_search(s: AppModel) -> AppModel {
    AppModel {
        state: AppState::Indexing,
        search_query: seq![],
        search_results: seq![],
        selected_search_index: 0,
        index_pending: true,
        ..s
    }
}

/// The progress of the vector-index task, which is outstanding, is shown.
pub open spec fn enter_vector_indexing(s: AppModel) -> AppModel {
    AppModel {
        state: AppState::IndexingVectors,
        vector_indexing_status: Some("Starting vector indexing..."@),
        vector_indexing_complete: false,
        vector_indexing_success_time: None,
        vector_pending: true,
        ..s
    }
}

/// The command palette opens with a fresh menu, its first entry selected.
pub open spec fn enter_palette(s: AppModel) -> AppModel {
    AppModel {
        command_items: menu_commands(),
        selected_command_index: 0,
        state: AppState::CommandPalette,
        ..s
    }
}

/// A search-index task is spawned unless one is outstanding already.
pub open spec fn index_effect(s: AppModel) -> EffectView {
    if s.index_pending {
        EffectView::Nothing
    } else {
        EffectView::StartIndexing
    }
}

/// The states from which Ctrl+S starts a search.
pub open spec fn can_start_search(st: AppState) -> bool {
    st == AppState::Preview || st == AppState::Search || st == AppState::CommandPalette || st
        == AppState::IndexingVectors
}

// ---- keys ----

pub open spec fn key_step(s: AppModel, k: KeyInput) -> (AppModel, EffectView) {
    if !k.pressed {
        (s, EffectView::Nothing)
    } else if k.is_ctrl_char('s') {
        if can_start_search(s.state) {
            (enter_search(s), index_effect(s))
        } else {
            (s, EffectView::Nothing)
        }
    } else if k.is_ctrl_char('e') {
        (s, EffectView::OpenConfigEditor)
    } else if k.control_only() && k.code == KeyCode::Char('p') && ((s.state == AppState::Search
        && s.input_mode == InputMode::Normal) || s.state == AppState::CommandPalette) {
        (enter_palette(s), EffectView::Nothing)
    } else if s.state == AppState::Search {
        search_key_step(s, k)
    } else if s.state == AppState::CommandPalette {
        palette_key_step(s, k)
    } else {
        (default_key_step(s, k), EffectView::Nothing)
    }
}

/// Keys outside the search screen and the palette: Esc, `q` and Ctrl+C quit,
/// Ctrl+P opens the command palette.
pub open spec fn default_key_step(s: AppModel, k: KeyInput) -> AppModel {
    if k.control_only() && k.code == KeyCode::Char('p') {
        enter_palette(s)
    } else if k.code == KeyCode::Esc || k.code == KeyCode::Char('q') || (k.control_only() && (k.code
        == KeyCode::Char('c') || k.code == KeyCode::Char('C'))) {
        AppModel { running: false, ..s }
    } else {
        s
    }
}

/// Up moves the selection one entry back, unless it is at the first entry.
pub open spec fn step_up(i: int) -> int {
    if i > 0 {
        i - 1
    } else {
        i
    }
}

/// Down moves the selection one entry on, unless it is at the last entry.
pub open spec fn step_down(i: int, len: int) -> int {
    if i + 1 < len {
        i + 1
    } else {
        i
    }
}

pub open spec fn search_key_step(s: AppModel, k: KeyInput) -> (AppModel, EffectView) {
    match s.input_mode {
        InputMode::Normal => match k.code {
            KeyCode::Esc => (AppModel { state: AppState::Preview, ..s }, EffectView::Nothing),
            KeyCode::Enter => if 0 <= s.selected_search_index < s.search_results.len() {
                (
                    AppModel { state: AppState::Preview, ..s },
                    EffectView::OpenFile(s.search_results[s.selected_search_index].path@),
                )
            } else {
                (s, EffectView::Nothing)
            },
            KeyCode::Tab | KeyCode::Char('r') => toggle_view_step(s),
            KeyCode::Char('/') => (
                AppModel { input_mode: InputMode::Editing, ..s },
                EffectView::Nothing,
            ),
            KeyCode::Up => (
                AppModel { selected_search_index: step_up(s.selected_search_index), ..s },
                EffectView::Nothing,
            ),
            KeyCode::Down => (
                AppModel {
                    selected_search_index: step_down(
                        s.selected_search_index,
                        s.search_results.len() as int,
                    ),
                    ..s
                },
                EffectView::Nothing,
            ),
            _ => (s, EffectView::Nothing),
        },
        InputMode::Editing => match k.code {
            KeyCode::Esc => (AppModel { input_mode: InputMode::Normal, ..s }, EffectView::Nothing),
            KeyCode::Enter => query_step(AppModel { input_mode: InputMode::Normal, ..s }),
            KeyCode::Char(c) => query_step(
                AppModel { search_query: s.search_query.push(c), ..s },
            ),
            KeyCode::Backspace => query_step(
                AppModel {
                    search_query: if s.search_query.len() > 0 {
                        s.search_query.drop_last()
                    } else {
                        s.search_query
                    },
                    ..s
                },
            ),
            _ => (s, EffectView::Nothing),
        },
    }
}

/// The query has changed or was confirmed: an empty query empties the results at
/// once; any other is handed to the search engine.
pub open spec fn query_step(s: AppModel) -> (AppModel, EffectView) {
    if s.search_query.len() == 0 {
        (AppModel { search_results: seq![], selected_search_index: 0, ..s }, EffectView::Nothing)
    } else {
        (s, EffectView::RunQuery(s.search_query))
    }
}

/// What the search engine answered for the query takes the place of the results,
/// with the first selected; a failed query leaves no results.
pub open spec fn search_results_step(s: AppModel, found: Option<Seq<SearchResult>>) -> AppModel {
    AppModel {
        search_results: match found {
            Some(v) => v,
            None => seq![],
        },
        selected_search_index: 0,
        ..s
    }
}

/// Tab switches the detail panel; showing related files may issue a lookup.
pub open spec fn toggle_view_step(s: AppModel) -> (AppModel, EffectView) {
    let t = AppModel {
        detail_view_mode: match s.detail_view_mode {
            DetailViewMode::Preview => DetailViewMode::RelatedFiles,
            DetailViewMode::RelatedFiles => DetailViewMode::Preview,
        },
        ..s
    };
    let (u, lookup) = related_step(t);
    (
        u,
        match lookup {
            Some(p) => EffectView::FindRelated(p),
            None => EffectView::Nothing,
        },
    )
}

/// The debounce policy: while related files are shown and no lookup is
/// outstanding, a lookup is issued for the selected note unless the last one was
/// issued for that same note.
pub open spec fn related_step(s: AppModel) -> (AppModel, Option<Seq<char>>) {
    if s.state == AppState::Search && s.detail_view_mode == DetailViewMode::RelatedFiles
        && !s.is_loading_related_files && 0 <= s.selected_search_index < s.search_results.len()
        && s.current_related_document_path != Some(
        s.search_results[s.selected_search_index].path@,
    ) {
        let p = s.search_results[s.selected_search_index].path@;
        (
            AppModel {
                related_files: seq![],
                is_loading_related_files: true,
                related_files_error: None,
                current_related_document_path: Some(p),
                ..s
            },
            Some(p),
        )
    } else {
        (s, None)
    }
}

pub open spec fn palette_key_step(s: AppModel, k: KeyInput) -> (AppModel, EffectView) {
    match k.code {
        KeyCode::Esc => (AppModel { state: AppState::Preview, ..s }, EffectView::Nothing),
        KeyCode::Up => (
            AppModel { selected_command_index: step_up(s.selected_command_index), ..s },
            EffectView::Nothing,
        ),
        KeyCode::Down => (
            AppModel {
                selected_command_index: step_down(
                    s.selected_command_index,
                    s.command_items.len() as int,
                ),
                ..s
            },
            EffectView::Nothing,
        ),
        KeyCode::Enter => if 0 <= s.selected_command_index < s.command_items.len() {
            command_step(s, s.command_items[s.selected_command_index])
        } else {
            (s, EffectView::Nothing)
        },
        _ => (s, EffectView::Nothing),
    }
}

/// Running a command of the palette.
pub open spec fn command_step(s: AppModel, c: Command) -> (AppModel, EffectView) {
    match c {
        Command::Search => (
            AppModel { state: AppState::Search, ..enter_search(s) },
            index_effect(s),
        ),
        Command::IndexVectors => (
            enter_vector_indexing(s),
            if s.vector_pending {
                EffectView::Nothing
            } else {
                EffectView::StartVectorIndexing
            },
        ),
        Command::OpenConfigEditor => (
            AppModel { state: AppState::Preview, ..s },
            EffectView::OpenConfigEditor,
        ),
        Command::Quit => (AppModel { running: false, ..s }, EffectView::Nothing),
    }
}

// ---- task messages ----

/// What a poll of a task's channel gave, as a value.
pub enum PollView<T> {
    Ready(T),
    Empty,
    Disconnected,
}

/// The scan's answer: its files and summary, or a failure. A scan that ends in any
/// way leads from `Scanning` to `Preview`.
pub open spec fn scan_step(s: AppModel, m: PollView<Option<(Seq<ScannedFile>, Seq<char>)>>) -> AppModel {
    let after = if s.state == AppState::Scanning {
        AppState::Preview
    } else {
        s.state
    };
    if !s.scan_pending {
        s
    } else {
        match m {
            PollView::Ready(Some((files, summary))) => AppModel {
                scan_result: Some(files),
                scan_summary: Some(summary),
                scan_pending: false,
                state: after,
                ..s
            },
            PollView::Ready(None) | PollView::Disconnected => AppModel {
                scan_pending: false,
                state: after,
                ..s
            },
            PollView::Empty => s,
        }
    }
}

/// The search index is built: `Indexing` leads to `Search`; a task that vanished
/// without a word leads back to `Preview`.
pub open spec fn index_step(s: AppModel, m: PollView<()>) -> AppModel {
    if !s.index_pending {
        s
    } else {
        match m {
            PollView::Ready(_) => AppModel {
                index_pending: false,
                state: if s.state == AppState::Indexing {
                    AppState::Search
                } else {
                    s.state
                },
                ..s
            },
            PollView::Disconnected => AppModel {
                index_pending: false,
                state: if s.state == AppState::Indexing {
                    AppState::Preview
                } else {
                    s.state
                },
                ..s
            },
            PollView::Empty => s,
        }
    }
}

/// The vector-index task reports while its screen is shown: `SUCCESS` and a
/// message that starts with `Error` end it (the notice stays for a while), any
/// other message is progress; a task that vanished leads back to `Preview`.
pub open spec fn vector_step(s: AppModel, m: PollView<Seq<char>>, now: u64) -> AppModel {
    if !(s.vector_pending && s.state == AppState::IndexingVectors) {
        s
    } else {
        match m {
            PollView::Ready(status) => if status == "SUCCESS"@ {
                AppModel {
                    vector_indexing_status: Some("Vector indexing completed successfully!"@),
                    vector_indexing_complete: true,
                    vector_indexing_success_time: Some(now),
                    vector_pending: false,
                    ..s
                }
            } else if is_prefix_of("Error"@, status) {
                AppModel {
                    vector_indexing_status: Some(status),
                    vector_indexing_complete: true,
                    vector_indexing_success_time: Some(now),
                    vector_pending: false,
                    ..s
                }
            } else {
                AppModel { vector_indexing_status: Some(status), ..s }
            },
            PollView::Disconnected => AppModel {
                vector_pending: false,
                state: AppState::Preview,
                ..s
            },
            PollView::Empty => s,
        }
    }
}

/// Once the end of vector indexing has been shown for `VECTOR_NOTICE_MS`, the
/// application returns to `Preview`.
pub open spec fn vector_notice_step(s: AppModel, now: u64) -> AppModel {
    match s.vector_indexing_success_time {
        Some(t) => if s.state == AppState::IndexingVectors && elapsed(t, now)
            >= VECTOR_NOTICE_MS {
            AppModel { state: AppState::Preview, vector_indexing_success_time: None, ..s }
        } else {
            s
        },
        None => s,
    }
}

/// The answer of a related-files lookup: the notes found, or an error line.
pub open spec fn related_answer_step(
    s: AppModel,
    m: PollView<Result<Seq<SearchResult>, Seq<char>>>,
) -> AppModel {
    if !s.is_loading_related_files {
        s
    } else {
        match m {
            PollView::Ready(Ok(v)) => if v.len() == 0 {
                AppModel {
                    related_files_error: Some(
                        "No related documents found that meet the similarity threshold."@,
                    ),
                    is_loading_related_files: false,
                    ..s
                }
            } else {
                AppModel {
                    related_files: v,
                    related_files_error: None,
                    is_loading_related_files: false,
                    ..s
                }
            },
            PollView::Ready(Err(e)) => AppModel {
                related_files_error: Some(e),
                is_loading_related_files: false,
                ..s
            },
            PollView::Disconnected => AppModel {
                related_files_error: Some("Failed to process related files request"@),
                is_loading_related_files: false,
                ..s
            },
            PollView::Empty => s,
        }
    }
}

/// The busy indicator moves to its next frame every `SPINNER_INTERVAL_MS`, and
/// after the last frame comes the first again.
pub open spec fn spinner_step(s: AppModel, now: u64) -> AppModel {
    if elapsed(s.last_tick_ms, now) >= SPINNER_INTERVAL_MS {
        AppModel {
            spinner_idx: if s.spinner_idx + 1 < s.spinner_chars.len() {
                s.spinner_idx + 1
            } else {
                0
            },
            last_tick_ms: now,
            ..s
        }
    } else {
        s
    }
}

} // verus!
