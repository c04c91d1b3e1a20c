use vstd::prelude::*;

use crate::keys::{KeyCode, KeyInput};
use crate::model::{
    key_step, related_answer_step, related_step, search_key_step, valid_selection,
    AppModel, EffectView, PollView,
};
use crate::commands::{actions_of, labelled, menu_commands, Command, CommandItem};
use crate::documents::SearchResult;
use crate::modes::{AppState, DetailViewMode, InputMode};

verus! {

/// The state after the keys `keys`, pressed in order from `s`.
pub open spec fn run_keys(s: AppModel, keys: Seq<KeyInput>) -> AppModel
    decreases keys.len(),
{
    if keys.len() == 0 {
        s
    } else {
        key_step(run_keys(s, keys.drop_last()), keys.last()).0
    }
}

/// Every key keeps the state well formed.
pub proof fn lemma_key_step_wf(s: AppModel, k: KeyInput)
    requires
        s.wf(),
    ensures
        key_step(s, k).0.wf(),
{
    assert(crate::commands::menu_commands().len() == 4);
}

/// Whatever keys are pressed, the selected search result stays within the list
/// of results, and is 0 when that list is empty.
pub proof fn lemma_selection_stays_in_bounds(s: AppModel, keys: Seq<KeyInput>)
    requires
        s.wf(),
    ensures
        run_keys(s, keys).wf(),
        valid_selection(
            run_keys(s, keys).selected_search_index,
            run_keys(s, keys).search_results.len() as int,
        ),
    decreases keys.len(),
{
    if keys.len() > 0 {
        lemma_selection_stays_in_bounds(s, keys.drop_last());
        lemma_key_step_wf(run_keys(s, keys.drop_last()), keys.last());
    }
}

/// A press of `code` with no modifier.
pub open spec fn plain_key(code: KeyCode) -> KeyInput {
    KeyInput { code, control: false, other_modifiers: false, pressed: true }
}

/// In the result list, Up on the first result and Down on the last change nothing.
pub proof fn lemma_navigation_clamps(s: AppModel)
    requires
        s.state == AppState::Search,
        s.input_mode == InputMode::Normal,
    ensures
        s.selected_search_index == 0 ==> key_step(s, plain_key(KeyCode::Up)) == (
            s,
            EffectView::Nothing,
        ),
        s.selected_search_index + 1 >= s.search_results.len() ==> key_step(
            s,
            plain_key(KeyCode::Down),
        ) == (s, EffectView::Nothing),
{
}

/// An event on the search screen that leaves the selection alone: Tab, a tick of
/// the debounce policy, or the answer of a related-files lookup.
pub enum ViewEvent {
    Toggle,
    Tick,
    Answer(PollView<Result<Seq<SearchResult>, Seq<char>>>),
}

/// The state after one such event, and the number of lookups it issued.
pub open spec fn view_event_step(s: AppModel, e: ViewEvent) -> (AppModel, nat) {
    match e {
        ViewEvent::Toggle => {
            let (t, eff) = key_step(s, plain_key(KeyCode::Tab));
            (
                t,
                if eff is FindRelated {
                    1
                } else {
                    0
                },
            )
        },
        ViewEvent::Tick => {
            let (t, lookup) = related_step(s);
            (
                t,
                if lookup is Some {
                    1
                } else {
                    0
                },
            )
        },
        ViewEvent::Answer(m) => (related_answer_step(s, m), 0),
    }
}

/// The state after the events `evs` in order, and the number of lookups issued.
pub open spec fn run_view_events(s: AppModel, evs: Seq<ViewEvent>) -> (AppModel, nat)
    decreases evs.len(),
{
    if evs.len() == 0 {
        (s, 0)
    } else {
        let (t, n) = run_view_events(s, evs.drop_last());
        let (u, k) = view_event_step(t, evs.last());
        (u, n + k)
    }
}

proof fn lemma_view_events_memo(s: AppModel, evs: Seq<ViewEvent>)
    requires
        s.wf(),
        s.state == AppState::Search,
        s.input_mode == InputMode::Normal,
    ensures
        ({
            let (t, n) = run_view_events(s, evs);
            &&& t.state == AppState::Search
            &&& t.input_mode == InputMode::Normal
            &&& t.search_results == s.search_results
            &&& t.selected_search_index == s.selected_search_index
            &&& n <= 1
            &&& n == 1 ==> 0 <= s.selected_search_index < s.search_results.len()
                && t.current_related_document_path == Some(
                s.search_results[s.selected_search_index].path@,
            )
        }),
    decreases evs.len(),
{
    if evs.len() > 0 {
        lemma_view_events_memo(s, evs.drop_last());
    }
}

/// As long as the selection does not change, switching the detail panel back and
/// forth, ticks of the debounce policy and answers of lookups issue at most one
/// related-files lookup between them.
pub proof fn lemma_unchanged_selection_looks_up_once(s: AppModel, evs: Seq<ViewEvent>)
    requires
        s.wf(),
        s.state == AppState::Search,
        s.input_mode == InputMode::Normal,
    ensures
        run_view_events(s, evs).1 <= 1,
{
    lemma_view_events_memo(s, evs);
}

/// While a related-files lookup is outstanding, neither a key nor a tick of the
/// debounce policy issues another one.
pub proof fn lemma_no_second_lookup_while_loading(s: AppModel, k: KeyInput)
    requires
        s.is_loading_related_files,
    ensures
        related_step(s).1 is None,
        !(key_step(s, k).1 is FindRelated),
{
}

/// With related files shown and no lookup outstanding, moving the selection to
/// another note issues exactly one lookup, for that note: the next tick issues
/// it and the tick after that issues none.
pub proof fn lemma_selection_change_looks_up_once(s: AppModel, k: KeyInput)
    requires
        s.wf(),
        s.state == AppState::Search,
        s.input_mode == InputMode::Normal,
        s.detail_view_mode == DetailViewMode::RelatedFiles,
        !s.is_loading_related_files,
        0 <= s.selected_search_index < s.search_results.len(),
        s.current_related_document_path == Some(s.search_results[s.selected_search_index].path@),
        k == plain_key(KeyCode::Up) || k == plain_key(KeyCode::Down),
        ({
            let t = key_step(s, k).0;
            t.search_results[t.selected_search_index].path@ != s.search_results[s.selected_search_index].path@
        }),
    ensures
        ({
            let t = key_step(s, k).0;
            let p = t.search_results[t.selected_search_index].path@;
            &&& key_step(s, k).1 == EffectView::Nothing
            &&& related_step(t).1 == Some(p)
            &&& related_step(related_step(t).0).1 is None
        }),
{
}

/// When the outstanding lookup answers, or its task vanishes, and the selection
/// has moved to another note meanwhile, the next tick issues exactly one lookup,
/// for the selected note, and the tick after that issues none.
pub proof fn lemma_lookup_after_completion(
    s: AppModel,
    m: PollView<Result<Seq<SearchResult>, Seq<char>>>,
)
    requires
        s.state == AppState::Search,
        s.detail_view_mode == DetailViewMode::RelatedFiles,
        s.is_loading_related_files,
        0 <= s.selected_search_index < s.search_results.len(),
        s.current_related_document_path != Some(s.search_results[s.selected_search_index].path@),
        !(m is Empty),
    ensures
        ({
            let t = related_answer_step(s, m);
            let p = s.search_results[s.selected_search_index].path@;
            &&& !t.is_loading_related_files
            &&& related_step(t).1 == Some(p)
            &&& related_step(related_step(t).0).1 is None
        }),
{
}

/// No key and no tick asks for a background task while one of its kind is
/// outstanding.
pub proof fn lemma_one_task_per_kind(s: AppModel, k: KeyInput)
    requires
        s.wf(),
    ensures
        key_step(s, k).1 is StartIndexing ==> !s.index_pending,
        key_step(s, k).1 is StartVectorIndexing ==> !s.vector_pending,
        key_step(s, k).1 is FindRelated ==> !s.is_loading_related_files,
        related_step(s).1 is Some ==> !s.is_loading_related_files,
{
}

/// The open palette lists Search, Index Vectors, Open Config Editor and Quit, in
/// that order and under those labels.
pub proof fn lemma_palette_labels(items: Seq<CommandItem>)
    requires
        actions_of(items) == menu_commands(),
        labelled(items),
    ensures
        items.len() == 4,
        items[0].name@ == "Search"@,
        items[1].name@ == "Index Vectors"@,
        items[2].name@ == "Open Config Editor"@,
        items[3].name@ == "Quit"@,
{
    assert(actions_of(items).len() == items.len());
    assert(items[0].action == actions_of(items)[0]);
    assert(items[1].action == actions_of(items)[1]);
    assert(items[2].action == actions_of(items)[2]);
    assert(items[3].action == actions_of(items)[3]);
}

/// Enter on the palette entry labelled Quit stops the application, and asks
/// for nothing else.
pub proof fn lemma_quit_entry_quits(s: AppModel, items: Seq<CommandItem>)
    requires
        actions_of(items) == s.command_items,
        labelled(items),
        s.state == AppState::CommandPalette,
        0 <= s.selected_command_index < items.len(),
        items[s.selected_command_index].name@ == "Quit"@,
    ensures
        !key_step(s, plain_key(KeyCode::Enter)).0.running,
        key_step(s, plain_key(KeyCode::Enter)).1 == EffectView::Nothing,
{
    let c = items[s.selected_command_index].action;
    assert(actions_of(items)[s.selected_command_index] == c);
    crate::commands::lemma_names_distinct(c, Command::Quit);
}

/// Switching from related files back to the preview issues no lookup and leaves
/// the memo, the outstanding lookup and the selection as they were.
pub proof fn lemma_leaving_related_view_is_quiet(s: AppModel, k: KeyInput)
    requires
        s.input_mode == InputMode::Normal,
        s.detail_view_mode == DetailViewMode::RelatedFiles,
        k.code == KeyCode::Tab || k.code == KeyCode::Char('r'),
    ensures
        ({
            let (t, e) = search_key_step(s, k);
            &&& t == (AppModel { detail_view_mode: DetailViewMode::Preview, ..s })
            &&& e == EffectView::Nothing
        }),
{
}

/// Showing related files again for a note already looked up issues no lookup.
pub proof fn lemma_reentering_related_view_is_quiet(s: AppModel, k: KeyInput)
    requires
        s.input_mode == InputMode::Normal,
        s.detail_view_mode == DetailViewMode::Preview,
        0 <= s.selected_search_index < s.search_results.len(),
        s.current_related_document_path == Some(s.search_results[s.selected_search_index].path@),
        k.code == KeyCode::Tab || k.code == KeyCode::Char('r'),
    ensures
        ({
            let (t, e) = search_key_step(s, k);
            &&& t == (AppModel { detail_view_mode: DetailViewMode::RelatedFiles, ..s })
            &&& e == EffectView::Nothing
        }),
{
}

/// Showing related files for a note not yet looked up clears the panel and
/// issues exactly one lookup, for the selected note.
pub proof fn lemma_entering_related_view_looks_up(s: AppModel, k: KeyInput)
    requires
        s.state == AppState::Search,
        s.input_mode == InputMode::Normal,
        s.detail_view_mode == DetailViewMode::Preview,
        !s.is_loading_related_files,
        0 <= s.selected_search_index < s.search_results.len(),
        s.current_related_document_path != Some(s.search_results[s.selected_search_index].path@),
        k.code == KeyCode::Tab || k.code == KeyCode::Char('r'),
    ensures
        ({
            let (t, e) = search_key_step(s, k);
            let p = s.search_results[s.selected_search_index].path@;
            &&& t.detail_view_mode == DetailViewMode::RelatedFiles
            &&& t.related_files == Seq::<SearchResult>::empty()
            &&& t.related_files_error is None
            &&& t.is_loading_related_files
            &&& t.current_related_document_path == Some(p)
            &&& e == EffectView::FindRelated(p)
            &&& related_step(t).1 is None
        }),
{
}

/// While the query is edited, a typed character is appended and Backspace drops
/// the last one; the mode stays, and a non-empty query is handed to the search
/// engine while an empty one empties the results.
pub proof fn lemma_editing_runs_the_new_query(s: AppModel, k: KeyInput)
    requires
        s.input_mode == InputMode::Editing,
        k.code is Char || k.code == KeyCode::Backspace,
    ensures
        ({
            let q = match k.code {
                KeyCode::Char(c) => s.search_query.push(c),
                _ => if s.search_query.len() > 0 {
                    s.search_query.drop_last()
                } else {
                    s.search_query
                },
            };
            let (t, e) = search_key_step(s, k);
            &&& t.search_query == q
            &&& t.input_mode == InputMode::Editing
            &&& (q.len() > 0 ==> e == EffectView::RunQuery(q) && t == (AppModel {
                search_query: q,
                ..s
            }))
            &&& (q.len() == 0 ==> e == EffectView::Nothing && t.search_results.len() == 0
                && t.selected_search_index == 0)
        }),
{
}

} // verus!
