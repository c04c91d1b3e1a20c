use vstd::prelude::*;

verus! {

/// The key of a keyboard event, reduced to what the application reacts to.
#[derive(Debug, Clone, Copy, PartialEq, Eq, Structural)]
pub enum KeyCode {
    Char(char),
    Esc,
    Enter,
    Tab,
    Backspace,
    Up,
    Down,
    /// Any key the application ignores.
    Other,
}

/// One keyboard event: its key, its modifiers and whether it is a press.
#[derive(Debug, Clone, Copy, PartialEq, Eq, Structural)]
pub struct KeyInput {
    pub code: KeyCode,
    /// The Control modifier is held.
    pub control: bool,
    /// Some modifier other than Control (Shift, Alt, ...) is held.
    pub other_modifiers: bool,
    /// The event is a key press (not a release or a repeat).
    pub pressed: bool,
}

impl KeyInput {
    /// A press of `code` with no modifier.
    pub fn plain(code: KeyCode) -> (r: KeyInput)
        ensures
            r == (KeyInput { code, control: false, other_modifiers: false, pressed: true }),
    {
        KeyInput { code, control: false, other_modifiers: false, pressed: true }
    }

    /// A press of the character `c` with Control alone.
    pub fn ctrl(c: char) -> (r: KeyInput)
        ensures
            r == (KeyInput { code: KeyCode::Char(c), control: true, other_modifiers: false, pressed: true }),
    {
        KeyInput { code: KeyCode::Char(c), control: true, other_modifiers: false, pressed: true }
    }

    /// Control is held (possibly with other modifiers) and the key is the character `c`.
    pub open spec fn spec_is_ctrl_char(self, c: char) -> bool {
        self.control && self.code == KeyCode::Char(c)
    }

    #[verifier::when_used_as_spec(spec_is_ctrl_char)]
    pub fn is_ctrl_char(self, c: char) -> (r: bool)
        ensures
            r == self.spec_is_ctrl_char(c),
    {
        self.control && self.code == KeyCode::Char(c)
    }

    /// Control is the only modifier held.
    pub open spec fn spec_control_only(self) -> bool {
        self.control && !self.other_modifiers
    }

    #[verifier::when_used_as_spec(spec_control_only)]
    pub fn control_only(self) -> (r: bool)
        ensures
            r == self.spec_control_only(),
    {
        self.control && !self.other_modifiers
    }
}

} // verus!
