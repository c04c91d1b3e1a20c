use vstd::prelude::*;

use crate::app::{App, Effect};
use crate::keys::KeyInput;


verus! {

/// What an entry of the command palette does when it is confirmed.
#[derive(Debug, Clone, Copy, PartialEq, Eq, Structural)]
pub enum Command {
    /// Build the search index and open the search screen.
    Search,
    /// Build the vector embeddings of all notes.
    IndexVectors,
    /// Open the configuration file in the external editor.
    OpenConfigEditor,
    /// Leave the application.
    Quit,
}

/// One entry of the command palette.
#[derive(Debug, Clone, PartialEq, Eq)]
pub struct CommandItem {
    pub name: String,
    pub description: String,
    pub action: Command,
}

/// The commands of the palette, in the order they are listed.
pub open spec fn menu_commands() -> Seq<Command> {
    seq![Command::Search, Command::IndexVectors, Command::OpenConfigEditor, Command::Quit]
}

/// The commands that a list of palette entries runs.
pub open spec fn actions_of(items: Seq<CommandItem>) -> Seq<Command> {
    items.map_values(|c: CommandItem| c.action)
}

/// The label of a command in the palette.
pub open spec fn name_of(c: Command) -> Seq<char> {
    match c {
        Command::Search => "Search"@,
        Command::IndexVectors => "Index Vectors"@,
        Command::OpenConfigEditor => "Open Config Editor"@,
        Command::Quit => "Quit"@,
    }
}

/// The line that explains a command in the palette.
pub open spec fn description_of(c: Command) -> Seq<char> {
    match c {
        Command::Search => "Enter search mode"@,
        Command::IndexVectors => "Generate vector embeddings for all markdown files"@,
        Command::OpenConfigEditor => "Edit configuration file"@,
        Command::Quit => "Exit the application"@,
    }
}

impl Command {
    pub fn name(self) -> (r: String)
        ensures
            r@ == name_of(self),
    {
        match self {
            Command::Search => String::from_str("Search"),
            Command::IndexVectors => String::from_str("Index Vectors"),
            Command::OpenConfigEditor => String::from_str("Open Config Editor"),
            Command::Quit => String::from_str("Quit"),
        }
    }

    pub fn description(self) -> (r: String)
        ensures
            r@ == description_of(self),
    {
        match self {
            Command::Search => String::from_str("Enter search mode"),
            Command::IndexVectors => String::from_str(
                "Generate vector embeddings for all markdown files",
            ),
            Command::OpenConfigEditor => String::from_str("Edit configuration file"),
            Command::Quit => String::from_str("Exit the application"),
        }
    }

    /// The palette entry of this command.
    pub fn item(self) -> (r: CommandItem)
        ensures
            r.action == self,
            r.name@ == name_of(self),
            r.description@ == description_of(self),
    {
        CommandItem { name: self.name(), description: self.description(), action: self }
    }
}

/// Each entry carries the label and the explanation of the command it runs.
pub open spec fn labelled(items: Seq<CommandItem>) -> bool {
    forall|i: int|
        0 <= i < items.len() ==> #[trigger] items[i].name@ == name_of(items[i].action)
            && items[i].description@ == description_of(items[i].action)
}

/// Two commands with the same label are the same command.
pub proof fn lemma_names_distinct(a: Command, b: Command)
    ensures
        name_of(a) == name_of(b) ==> a == b,
{
    reveal_strlit("Search");
    reveal_strlit("Index Vectors");
    reveal_strlit("Open Config Editor");
    reveal_strlit("Quit");
    assert(name_of(Command::Search).len() == 6);
    assert(name_of(Command::IndexVectors).len() == 13);
    assert(name_of(Command::OpenConfigEditor).len() == 18);
    assert(name_of(Command::Quit).len() == 4);
}

/// The entries of the command palette, built afresh each time it opens.
pub fn palette_menu() -> (r: Vec<CommandItem>)
    ensures
        actions_of(r@) == menu_commands(),
        labelled(r@),
{
    let r = vec![
        Command::Search.item(),
        Command::IndexVectors.item(),
        Command::OpenConfigEditor.item(),
        Command::Quit.item(),
    ];
    assert(actions_of(r@) =~= menu_commands());
    r
}

/// Handles a key while the command palette is shown: Esc closes it, Up and Down
/// move the selection within the list, Enter runs the selected command.
pub fn handle_command_palette_key(app: &mut App, key: KeyInput) -> (r: Effect)
    ensures
        (final(app)@, r@) == crate::model::palette_key_step(old(app)@, key),
        labelled(old(app).command_entries()),
{
    app.handle_command_palette_key(key)
}

} // verus!
