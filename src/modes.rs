use vstd::prelude::*;

verus! {

/// Which screen of the application is active.
#[derive(Debug, Clone, Copy, PartialEq, Eq, Structural)]
pub enum AppState {
    Starting,
    Scanning,
    Preview,
    Indexing,
    Search,
    CommandPalette,
    IndexingVectors,
}

/// How keys are read while the search screen is active.
#[derive(Debug, Clone, Copy, PartialEq, Eq, Structural)]
pub enum InputMode {
    /// Navigation: keys move the selection and switch views.
    Normal,
    /// Text input: keys edit the search query.
    Editing,
}

/// Which panel is shown beside the result list on the search screen.
#[derive(Debug, Clone, Copy, PartialEq, Eq, Structural)]
pub enum DetailViewMode {
    Preview,
    RelatedFiles,
}

impl DetailViewMode {
    /// The other panel.
    pub fn toggled(self) -> (r: DetailViewMode)
        ensures
            r != self,
    {
        match self {
            DetailViewMode::Preview => DetailViewMode::RelatedFiles,
            DetailViewMode::RelatedFiles => DetailViewMode::Preview,
        }
    }
}

} // verus!
