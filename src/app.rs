use vstd::prelude::*;

use crate::commands::{actions_of, labelled, palette_menu, Command, CommandItem};
use crate::documents::{ScannedFile, SearchResult};
use crate::keys::{KeyCode, KeyInput};
use crate::model::{
    command_step, default_key_step, enter_palette, enter_search, enter_vector_indexing, index_step, initial_model,
    key_step, palette_key_step, query_step, related_answer_step, related_step, scan_step,
    search_key_step, search_results_step, spinner_frames, spinner_step, start_scanning_step,
    toggle_view_step, vector_notice_step, vector_step, AppModel, EffectView, PollView,
    SPINNER_INTERVAL_MS, VECTOR_NOTICE_MS,
};
use crate::modes::{AppState, DetailViewMode, InputMode};
use crate::text::{pop_char, push_char, same_text, starts_with};

verus! {

/// What the caller must do after a transition of the application.
#[derive(Debug, Clone, PartialEq, Eq)]
pub enum Effect {
    Nothing,
    /// Spawn the task that builds the search index.
    StartIndexing,
    /// Spawn the task that builds the vector embeddings.
    StartVectorIndexing,
    /// Spawn a lookup of the notes related to the note at this path.
    FindRelated(String),
    /// Run this query against the search engine and hand back its answer.
    RunQuery(String),
    /// Open the note at this path in the external editor.
    OpenFile(String),
    /// Open the configuration file in the external editor.
    OpenConfigEditor,
}

impl View for Effect {
    type V = EffectView;

    open spec fn view(&self) -> EffectView {
        match self {
            Effect::Nothing => EffectView::Nothing,
            Effect::StartIndexing => EffectView::StartIndexing,
            Effect::StartVectorIndexing => EffectView::StartVectorIndexing,
            Effect::FindRelated(p) => EffectView::FindRelated(p@),
            Effect::RunQuery(q) => EffectView::RunQuery(q@),
            Effect::OpenFile(p) => EffectView::OpenFile(p@),
            Effect::OpenConfigEditor => EffectView::OpenConfigEditor,
        }
    }
}

/// What a non-blocking poll of a task's channel gave.
#[derive(Debug, Clone, PartialEq, Eq)]
pub enum Polled<T> {
    /// A message was waiting.
    Ready(T),
    /// Nothing yet.
    Empty,
    /// The task is gone and nothing more will come.
    Disconnected,
}

pub open spec fn scan_poll_view(
    m: Polled<Result<(Vec<ScannedFile>, String), String>>,
) -> PollView<Option<(Seq<ScannedFile>, Seq<char>)>> {
    match m {
        Polled::Ready(Ok((files, summary))) => PollView::Ready(Some((files@, summary@))),
        Polled::Ready(Err(_)) => PollView::Ready(None),
        Polled::Empty => PollView::Empty,
        Polled::Disconnected => PollView::Disconnected,
    }
}

pub open spec fn unit_poll_view(m: Polled<()>) -> PollView<()> {
    match m {
        Polled::Ready(u) => PollView::Ready(u),
        Polled::Empty => PollView::Empty,
        Polled::Disconnected => PollView::Disconnected,
    }
}

pub open spec fn text_poll_view(m: Polled<String>) -> PollView<Seq<char>> {
    match m {
        Polled::Ready(t) => PollView::Ready(t@),
        Polled::Empty => PollView::Empty,
        Polled::Disconnected => PollView::Disconnected,
    }
}

pub open spec fn related_poll_view(m: Polled<Result<Vec<SearchResult>, String>>) -> PollView<
    Result<Seq<SearchResult>, Seq<char>>,
> {
    match m {
        Polled::Ready(Ok(v)) => PollView::Ready(Ok(v@)),
        Polled::Ready(Err(e)) => PollView::Ready(Err(e@)),
        Polled::Empty => PollView::Empty,
        Polled::Disconnected => PollView::Disconnected,
    }
}

pub open spec fn opt_text(o: Option<String>) -> Option<Seq<char>> {
    match o {
        Some(s) => Some(s@),
        None => None,
    }
}

pub open spec fn opt_files(o: Option<Vec<ScannedFile>>) -> Option<Seq<ScannedFile>> {
    match o {
        Some(v) => Some(v@),
        None => None,
    }
}

/// The interactive state of the notes browser. Its background tasks run
/// elsewhere: it says when one is to be spawned, and takes their messages.
#[derive(Debug)]
pub struct App {
    running: bool,
    state: AppState,
    input_mode: InputMode,
    detail_view_mode: DetailViewMode,
    spinner_chars: Vec<char>,
    spinner_idx: usize,
    last_tick_ms: u64,
    scan_pending: bool,
    scan_result: Option<Vec<ScannedFile>>,
    scan_summary: Option<String>,
    index_pending: bool,
    search_query: String,
    search_results: Vec<SearchResult>,
    selected_search_index: usize,
    related_files: Vec<SearchResult>,
    is_loading_related_files: bool,
    related_files_error: Option<String>,
    current_related_document_path: Option<String>,
    command_items: Vec<CommandItem>,
    selected_command_index: usize,
    vector_pending: bool,
    vector_indexing_status: Option<String>,
    vector_indexing_complete: bool,
    vector_indexing_success_time: Option<u64>,
}

impl View for App {
    type V = AppModel;

    closed spec fn view(&self) -> AppModel {
        AppModel {
            running: self.running,
            state: self.state,
            input_mode: self.input_mode,
            detail_view_mode: self.detail_view_mode,
            spinner_chars: self.spinner_chars@,
            spinner_idx: self.spinner_idx as int,
            last_tick_ms: self.last_tick_ms,
            scan_pending: self.scan_pending,
            scan_result: opt_files(self.scan_result),
            scan_summary: opt_text(self.scan_summary),
            index_pending: self.index_pending,
            search_query: self.search_query@,
            search_results: self.search_results@,
            selected_search_index: self.selected_search_index as int,
            related_files: self.related_files@,
            is_loading_related_files: self.is_loading_related_files,
            related_files_error: opt_text(self.related_files_error),
            current_related_document_path: opt_text(self.current_related_document_path),
            command_items: actions_of(self.command_items@),
            selected_command_index: self.selected_command_index as int,
            vector_pending: self.vector_pending,
            vector_indexing_status: opt_text(self.vector_indexing_status),
            vector_indexing_complete: self.vector_indexing_complete,
            vector_indexing_success_time: self.vector_indexing_success_time,
        }
    }
}

impl App {
    #[verifier::type_invariant]
    closed spec fn inv(&self) -> bool {
        &&& self@.wf()
        &&& labelled(self.command_items@)
    }

    /// The entries of the command palette, with their labels.
    pub closed spec fn command_entries(&self) -> Seq<CommandItem> {
        self.command_items@
    }

    /// The application before its control loop starts.
    pub fn new() -> (r: App)
        ensures
            r@ == initial_model(),
    {
        let spinner_chars = vec![
            '\u{280b}',
            '\u{2819}',
            '\u{2839}',
            '\u{2838}',
            '\u{283c}',
            '\u{2834}',
            '\u{2826}',
            '\u{2827}',
            '\u{2807}',
            '\u{280f}',
        ];
        let r = App {
            running: false,
            state: AppState::Starting,
            input_mode: InputMode::Editing,
            detail_view_mode: DetailViewMode::Preview,
            spinner_chars,
            spinner_idx: 0,
            last_tick_ms: 0,
            scan_pending: false,
            scan_result: None,
            scan_summary: None,
            index_pending: false,
            search_query: String::new(),
            search_results: Vec::new(),
            selected_search_index: 0,
            related_files: Vec::new(),
            is_loading_related_files: false,
            related_files_error: None,
            current_related_document_path: None,
            command_items: Vec::new(),
            selected_command_index: 0,
            vector_pending: false,
            vector_indexing_status: None,
            vector_indexing_complete: false,
            vector_indexing_success_time: None,
        };
        assert(r@.spinner_chars =~= spinner_frames());
        assert(r@.command_items =~= seq![]);
        r
    }

    /// Called once the scan task has been spawned; says whether it was owed
    /// (only from `Starting`).
    pub fn start_scanning(&mut self) -> (r: bool)
        ensures
            (final(self)@, r) == start_scanning_step(old(self)@),
    {
        proof {
            use_type_invariant(&*self);
        }
        self.running = true;
        if self.state == AppState::Starting {
            self.state = AppState::Scanning;
            self.scan_pending = true;
            true
        } else {
            false
        }
    }

    /// Clears the query and its results and waits for the search index; the
    /// caller spawns the task that builds it unless one is outstanding.
    pub fn enter_search_mode(&mut self)
        ensures
            final(self)@ == enter_search(old(self)@),
    {
        proof {
            use_type_invariant(&*self);
        }
        self.state = AppState::Indexing;
        self.search_query = String::new();
        self.selected_search_index = 0;
        self.search_results = Vec::new();
        self.index_pending = true;
        assert(self@.search_results =~= seq![]);
        assert(self@.search_query =~= seq![]);
    }

    /// Shows the progress of vector indexing; the caller spawns the task unless
    /// one is outstanding.
    pub fn enter_vector_indexing_mode(&mut self)
        ensures
            final(self)@ == enter_vector_indexing(old(self)@),
    {
        proof {
            use_type_invariant(&*self);
        }
        self.state = AppState::IndexingVectors;
        self.vector_indexing_status = Some(String::from_str("Starting vector indexing..."));
        self.vector_indexing_complete = false;
        self.vector_indexing_success_time = None;
        self.vector_pending = true;
    }

    /// Opens the command palette with a fresh menu.
    pub fn enter_command_palette(&mut self)
        ensures
            final(self)@ == enter_palette(old(self)@),
            actions_of(final(self).command_entries()) == crate::commands::menu_commands(),
            labelled(final(self).command_entries()),
    {
        proof {
            use_type_invariant(&*self);
        }
        self.selected_command_index = 0;
        self.command_items = palette_menu();
        self.state = AppState::CommandPalette;
    }

    /// Stops the control loop.
    pub fn quit(&mut self)
        ensures
            final(self)@ == (AppModel { running: false, ..old(self)@ }),
    {
        proof {
            use_type_invariant(&*self);
        }
        self.running = false;
    }

    /// The query changed or was confirmed.
    fn perform_search(&mut self) -> (r: Effect)
        ensures
            (final(self)@, r@) == query_step(old(self)@),
    {
        proof {
            use_type_invariant(&*self);
        }
        if self.search_query.as_str().unicode_len() == 0 {
            self.selected_search_index = 0;
            self.search_results = Vec::new();
            assert(self@.search_results =~= seq![]);
            Effect::Nothing
        } else {
            Effect::RunQuery(self.search_query.clone())
        }
    }

    /// Takes the answer of the search engine to the last query: its results, or
    /// `Err` when the query failed or no engine is configured.
    pub fn apply_search_results(&mut self, found: Result<Vec<SearchResult>, String>)
        ensures
            final(self)@ == search_results_step(
                old(self)@,
                match found {
                    Ok(v) => Some(v@),
                    Err(_) => None,
                },
            ),
    {
        proof {
            use_type_invariant(&*self);
        }
        self.selected_search_index = 0;
        match found {
            Ok(v) => {
                self.search_results = v;
            },
            Err(_) => {
                self.search_results = Vec::new();
                assert(self@.search_results =~= seq![]);
            },
        }
    }

    /// The debounce policy of the related-files panel, run on every tick: says for
    /// which note a lookup is to be spawned, if any.
    pub fn process(&mut self) -> (r: Option<String>)
        ensures
            (final(self)@, opt_text(r)) == related_step(old(self)@),
    {
        proof {
            use_type_invariant(&*self);
        }
        if self.state == AppState::Search && self.detail_view_mode == DetailViewMode::RelatedFiles
            && !self.is_loading_related_files && self.selected_search_index
            < self.search_results.len() {
            let path = &self.search_results[self.selected_search_index].path;
            let same = match &self.current_related_document_path {
                Some(p) => same_text(p.as_str(), path.as_str()),
                None => false,
            };
            if same {
                return None;
            }
            let path = path.clone();
            self.related_files = Vec::new();
            self.is_loading_related_files = true;
            self.related_files_error = None;
            self.current_related_document_path = Some(path.clone());
            assert(self@.related_files =~= seq![]);
            Some(path)
        } else {
            None
        }
    }

    fn toggle_detail_view(&mut self) -> (r: Effect)
        ensures
            (final(self)@, r@) == toggle_view_step(old(self)@),
    {
        proof {
            use_type_invariant(&*self);
        }
        self.detail_view_mode = self.detail_view_mode.toggled();
        match self.process() {
            Some(p) => Effect::FindRelated(p),
            None => Effect::Nothing,
        }
    }

    fn handle_search_key(&mut self, key: KeyInput) -> (r: Effect)
        requires
            old(self)@.state == AppState::Search,
        ensures
            (final(self)@, r@) == search_key_step(old(self)@, key),
    {
        proof {
            use_type_invariant(&*self);
        }
        match self.input_mode {
            InputMode::Normal => match key.code {
                KeyCode::Esc => {
                    self.state = AppState::Preview;
                    Effect::Nothing
                },
                KeyCode::Enter => {
                    if self.selected_search_index < self.search_results.len() {
                        let path = self.search_results[self.selected_search_index].path.clone();
                        self.state = AppState::Preview;
                        Effect::OpenFile(path)
                    } else {
                        Effect::Nothing
                    }
                },
                KeyCode::Tab => self.toggle_detail_view(),
                KeyCode::Char('r') => self.toggle_detail_view(),
                KeyCode::Char('/') => {
                    self.input_mode = InputMode::Editing;
                    Effect::Nothing
                },
                KeyCode::Up => {
                    if self.selected_search_index > 0 {
                        self.selected_search_index = self.selected_search_index - 1;
                    }
                    Effect::Nothing
                },
                KeyCode::Down => {
                    if self.search_results.len() > 0 && self.selected_search_index < self.search_results.len()
                        - 1 {
                        self.selected_search_index = self.selected_search_index + 1;
                    }
                    Effect::Nothing
                },
                _ => Effect::Nothing,
            },
            InputMode::Editing => match key.code {
                KeyCode::Esc => {
                    self.input_mode = InputMode::Normal;
                    Effect::Nothing
                },
                KeyCode::Enter => {
                    self.input_mode = InputMode::Normal;
                    self.perform_search()
                },
                KeyCode::Char(c) => {
                    let mut query = self.search_query.clone();
                    push_char(&mut query, c);
                    self.search_query = query;
                    self.perform_search()
                },
                KeyCode::Backspace => {
                    let mut query = self.search_query.clone();
                    pop_char(&mut query);
                    self.search_query = query;
                    self.perform_search()
                },
                _ => Effect::Nothing,
            },
        }
    }

    fn run_command(&mut self, c: Command) -> (r: Effect)
        ensures
            (final(self)@, r@) == command_step(old(self)@, c),
    {
        proof {
            use_type_invariant(&*self);
        }
        match c {
            Command::Search => {
                let spawn = !self.index_pending;
                self.enter_search_mode();
                proof {
                    use_type_invariant(&*self);
                }
                self.state = AppState::Search;
                if spawn {
                    Effect::StartIndexing
                } else {
                    Effect::Nothing
                }
            },
            Command::IndexVectors => {
                let spawn = !self.vector_pending;
                self.enter_vector_indexing_mode();
                if spawn {
                    Effect::StartVectorIndexing
                } else {
                    Effect::Nothing
                }
            },
            Command::OpenConfigEditor => {
                self.state = AppState::Preview;
                Effect::OpenConfigEditor
            },
            Command::Quit => {
                self.quit();
                Effect::Nothing
            },
        }
    }

    /// Handles a key while the command palette is shown: Esc closes it, Up and
    /// Down move the selection within the list, Enter runs the selected command.
    pub fn handle_command_palette_key(&mut self, key: KeyInput) -> (r: Effect)
        ensures
            (final(self)@, r@) == palette_key_step(old(self)@, key),
            labelled(old(self).command_entries()),
    {
        proof {
            use_type_invariant(&*self);
        }
        match key.code {
            KeyCode::Esc => {
                self.state = AppState::Preview;
                Effect::Nothing
            },
            KeyCode::Up => {
                if self.selected_command_index > 0 {
                    self.selected_command_index = self.selected_command_index - 1;
                }
                Effect::Nothing
            },
            KeyCode::Down => {
                if self.command_items.len() > 0 && self.selected_command_index
                    < self.command_items.len() - 1 {
                    self.selected_command_index = self.selected_command_index + 1;
                }
                Effect::Nothing
            },
            KeyCode::Enter => {
                if self.selected_command_index < self.command_items.len() {
                    let c = self.command_items[self.selected_command_index].action;
                    self.run_command(c)
                } else {
                    Effect::Nothing
                }
            },
            _ => Effect::Nothing,
        }
    }

    fn handle_default_key(&mut self, key: KeyInput)
        ensures
            final(self)@ == default_key_step(old(self)@, key),
    {
        proof {
            use_type_invariant(&*self);
        }
        if key.control_only() && key.code == KeyCode::Char('p') {
            self.enter_command_palette();
        } else if key.code == KeyCode::Esc || key.code == KeyCode::Char('q') || (
        key.control_only() && (key.code == KeyCode::Char('c') || key.code == KeyCode::Char('C'))) {
            self.quit();
        }
    }

    /// Handles one keyboard event and says what the caller must do next.
    /// No task is to be spawned while one of its kind is outstanding.
    /// Ctrl+S starts a search (from Preview, Search, the palette or vector
    /// indexing), Ctrl+E opens the configuration editor, Ctrl+P opens the palette
    /// (except while the query is being edited); other keys go to the active screen.
    pub fn handle_key(&mut self, key: KeyInput) -> (r: Effect)
        ensures
            (final(self)@, r@) == key_step(old(self)@, key),
            labelled(old(self).command_entries()),
    {
        proof {
            use_type_invariant(&*self);
        }
        if !key.pressed {
            Effect::Nothing
        } else if key.is_ctrl_char('s') {
            if self.state == AppState::Preview || self.state == AppState::Search || self.state
                == AppState::CommandPalette || self.state == AppState::IndexingVectors {
                let spawn = !self.index_pending;
                self.enter_search_mode();
                if spawn {
                    Effect::StartIndexing
                } else {
                    Effect::Nothing
                }
            } else {
                Effect::Nothing
            }
        } else if key.is_ctrl_char('e') {
            Effect::OpenConfigEditor
        } else if key.control_only() && key.code == KeyCode::Char('p') && ((self.state
            == AppState::Search && self.input_mode == InputMode::Normal) || self.state
            == AppState::CommandPalette) {
            self.enter_command_palette();
            Effect::Nothing
        } else if self.state == AppState::Search {
            self.handle_search_key(key)
        } else if self.state == AppState::CommandPalette {
            self.handle_command_palette_key(key)
        } else {
            self.handle_default_key(key);
            Effect::Nothing
        }
    }

    /// Takes what a poll of the scan task's channel gave.
    pub fn process_scan_receiver(&mut self, msg: Polled<Result<(Vec<ScannedFile>, String), String>>)
        ensures
            final(self)@ == scan_step(old(self)@, scan_poll_view(msg)),
    {
        proof {
            use_type_invariant(&*self);
        }
        if !self.scan_pending {
            return ;
        }
        let ends = match msg {
            Polled::Ready(Ok((files, summary))) => {
                self.scan_result = Some(files);
                self.scan_summary = Some(summary);
                true
            },
            Polled::Ready(Err(_)) => true,
            Polled::Disconnected => true,
            Polled::Empty => false,
        };
        if ends {
            self.scan_pending = false;
            if self.state == AppState::Scanning {
                self.state = AppState::Preview;
            }
        }
    }

    /// Takes what a poll of the search-index task's channel gave.
    pub fn process_index_receiver(&mut self, msg: Polled<()>)
        ensures
            final(self)@ == index_step(old(self)@, unit_poll_view(msg)),
    {
        proof {
            use_type_invariant(&*self);
        }
        if !self.index_pending {
            return ;
        }
        match msg {
            Polled::Ready(_) => {
                self.index_pending = false;
                if self.state == AppState::Indexing {
                    self.state = AppState::Search;
                }
            },
            Polled::Disconnected => {
                self.index_pending = false;
                if self.state == AppState::Indexing {
                    self.state = AppState::Preview;
                }
            },
            Polled::Empty => {},
        }
    }

    /// Takes what a poll of the vector-index task's channel gave, at time `now_ms`.
    pub fn process_vector_indexing_receiver(&mut self, msg: Polled<String>, now_ms: u64)
        ensures
            final(self)@ == vector_step(old(self)@, text_poll_view(msg), now_ms),
    {
        proof {
            use_type_invariant(&*self);
            reveal_strlit("Error");
        }
        if !(self.vector_pending && self.state == AppState::IndexingVectors) {
            return ;
        }
        match msg {
            Polled::Ready(status) => {
                if same_text(status.as_str(), "SUCCESS") {
                    self.vector_indexing_status = Some(
                        String::from_str("Vector indexing completed successfully!"),
                    );
                    self.vector_indexing_complete = true;
                    self.vector_indexing_success_time = Some(now_ms);
                    self.vector_pending = false;
                } else if starts_with(status.as_str(), "Error") {
                    self.vector_indexing_status = Some(status);
                    self.vector_indexing_complete = true;
                    self.vector_indexing_success_time = Some(now_ms);
                    self.vector_pending = false;
                } else {
                    self.vector_indexing_status = Some(status);
                }
            },
            Polled::Disconnected => {
                self.vector_pending = false;
                self.state = AppState::Preview;
            },
            Polled::Empty => {},
        }
    }

    /// Returns to `Preview` once the end of vector indexing has been shown long
    /// enough.
    pub fn expire_vector_notice(&mut self, now_ms: u64)
        ensures
            final(self)@ == vector_notice_step(old(self)@, now_ms),
    {
        proof {
            use_type_invariant(&*self);
        }
        match self.vector_indexing_success_time {
            Some(t) => {
                if self.state == AppState::IndexingVectors && now_ms >= t && now_ms - t
                    >= VECTOR_NOTICE_MS {
                    self.state = AppState::Preview;
                    self.vector_indexing_success_time = None;
                }
            },
            None => {},
        }
    }

    /// Takes what a poll of the related-files lookup's channel gave.
    #[verifier::rlimit(30)]
    pub fn process_related_files_receiver(
        &mut self,
        msg: Polled<Result<Vec<SearchResult>, String>>,
    )
        ensures
            final(self)@ == related_answer_step(old(self)@, related_poll_view(msg)),
    {
        proof {
            use_type_invariant(&*self);
        }
        if !self.is_loading_related_files {
            return ;
        }
        match msg {
            Polled::Ready(Ok(results)) => {
                if results.len() == 0 {
                    self.related_files_error = Some(
                        String::from_str(
                            "No related documents found that meet the similarity threshold.",
                        ),
                    );
                } else {
                    self.related_files = results;
                    self.related_files_error = None;
                }
                self.is_loading_related_files = false;
            },
            Polled::Ready(Err(e)) => {
                self.related_files_error = Some(e);
                self.is_loading_related_files = false;
            },
            Polled::Disconnected => {
                self.related_files_error = Some(
                    String::from_str("Failed to process related files request"),
                );
                self.is_loading_related_files = false;
            },
            Polled::Empty => {},
        }
    }

    /// Moves the busy indicator to its next frame once `SPINNER_INTERVAL_MS` have
    /// passed since it last moved.
    pub fn advance_spinner(&mut self, now_ms: u64)
        ensures
            final(self)@ == spinner_step(old(self)@, now_ms),
    {
        proof {
            use_type_invariant(&*self);
        }
        if now_ms >= self.last_tick_ms && now_ms - self.last_tick_ms >= SPINNER_INTERVAL_MS {
            if self.spinner_idx < self.spinner_chars.len() - 1 {
                self.spinner_idx = self.spinner_idx + 1;
            } else {
                self.spinner_idx = 0;
            }
            self.last_tick_ms = now_ms;
        }
    }

    pub fn running(&self) -> (r: bool)
        ensures
            r == self@.running,
    {
        self.running
    }

    pub fn state(&self) -> (r: AppState)
        ensures
            r == self@.state,
    {
        self.state
    }

    pub fn input_mode(&self) -> (r: InputMode)
        ensures
            r == self@.input_mode,
    {
        self.input_mode
    }

    pub fn detail_view_mode(&self) -> (r: DetailViewMode)
        ensures
            r == self@.detail_view_mode,
    {
        self.detail_view_mode
    }

    /// The frame of the busy indicator to draw.
    pub fn spinner_char(&self) -> (r: char)
        ensures
            r == self@.spinner_chars[self@.spinner_idx],
    {
        proof {
            use_type_invariant(self);
        }
        self.spinner_chars[self.spinner_idx]
    }

    pub fn scan_result(&self) -> (r: &Option<Vec<ScannedFile>>)
        ensures
            opt_files(*r) == self@.scan_result,
    {
        &self.scan_result
    }

    pub fn scan_summary(&self) -> (r: &Option<String>)
        ensures
            opt_text(*r) == self@.scan_summary,
    {
        &self.scan_summary
    }

    pub fn search_query(&self) -> (r: &String)
        ensures
            r@ == self@.search_query,
    {
        &self.search_query
    }

    pub fn search_results(&self) -> (r: &Vec<SearchResult>)
        ensures
            r@ == self@.search_results,
    {
        &self.search_results
    }

    pub fn selected_search_index(&self) -> (r: usize)
        ensures
            r == self@.selected_search_index,
    {
        self.selected_search_index
    }

    pub fn related_files(&self) -> (r: &Vec<SearchResult>)
        ensures
            r@ == self@.related_files,
    {
        &self.related_files
    }

    pub fn is_loading_related_files(&self) -> (r: bool)
        ensures
            r == self@.is_loading_related_files,
    {
        self.is_loading_related_files
    }

    pub fn related_files_error(&self) -> (r: &Option<String>)
        ensures
            opt_text(*r) == self@.related_files_error,
    {
        &self.related_files_error
    }

    pub fn current_related_document_path(&self) -> (r: &Option<String>)
        ensures
            opt_text(*r) == self@.current_related_document_path,
    {
        &self.current_related_document_path
    }

    pub fn command_items(&self) -> (r: &Vec<CommandItem>)
        ensures
            r@ == self.command_entries(),
            actions_of(r@) == self@.command_items,
            labelled(r@),
    {
        proof {
            use_type_invariant(self);
        }
        &self.command_items
    }

    pub fn selected_command_index(&self) -> (r: usize)
        ensures
            r == self@.selected_command_index,
    {
        self.selected_command_index
    }

    pub fn vector_indexing_status(&self) -> (r: &Option<String>)
        ensures
            opt_text(*r) == self@.vector_indexing_status,
    {
        &self.vector_indexing_status
    }

    pub fn vector_indexing_complete(&self) -> (r: bool)
        ensures
            r == self@.vector_indexing_complete,
    {
        self.vector_indexing_complete
    }

    /// A scan task is outstanding: its channel is to be polled.
    pub fn scan_pending(&self) -> (r: bool)
        ensures
            r == self@.scan_pending,
    {
        self.scan_pending
    }

    /// A search-index task is outstanding: its channel is to be polled.
    pub fn index_pending(&self) -> (r: bool)
        ensures
            r == self@.index_pending,
    {
        self.index_pending
    }

    /// A vector-index task is outstanding.
    pub fn vector_pending(&self) -> (r: bool)
        ensures
            r == self@.vector_pending,
    {
        self.vector_pending
    }

    /// The vector-index task's channel is to be polled now: its task is
    /// outstanding and its screen is shown.
    pub fn polls_vector_status(&self) -> (r: bool)
        ensures
            r == (self@.vector_pending && self@.state == AppState::IndexingVectors),
    {
        self.vector_pending && self.state == AppState::IndexingVectors
    }
}

impl Default for App {
    fn default() -> (r: App)
        ensures
            r@ == initial_model(),
    {
        App::new()
    }
}

} // verus!
