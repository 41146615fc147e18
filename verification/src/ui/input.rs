//! Input handling and key bindings

use vstd::prelude::*;

verus! {

/// A key as the explorer tells keys apart.
#[derive(Debug, Clone, Copy, PartialEq, Eq, Structural)]
pub enum Key {
    Up,
    Down,
    Left,
    Right,
    Enter,
    Esc,
    Tab,
    BackTab,
    Backspace,
    /// A function key, by its number.
    F(u8),
    /// A key that writes a character.
    Char(char),
    /// Any other key.
    Other,
}

/// Whether vim-style keybindings are enabled
#[derive(Debug, Clone, Copy, PartialEq, Eq, Structural)]
pub enum KeyBindings {
    /// Arrow keys for navigation (default)
    Arrows,
    /// Vim-style j/k navigation
    Vim,
}

impl Default for KeyBindings {
    fn default() -> (r: KeyBindings)
        ensures
            r == KeyBindings::Arrows,
    {
        KeyBindings::Arrows
    }
}

/// Current input mode
#[derive(Debug, Clone, Copy, PartialEq, Eq, Structural)]
pub enum InputMode {
    /// Normal navigation mode
    Normal,
    /// Search/filter input mode
    Search,
    /// Query text input mode
    FetchXML,
}

impl Default for InputMode {
    fn default() -> (r: InputMode)
        ensures
            r == InputMode::Normal,
    {
        InputMode::Normal
    }
}

impl KeyBindings {
    /// Whether `key` is the arrow `arrow`, or, with vim-style bindings, the
    /// letter `letter`.
    pub open spec fn moves(self, key: Key, arrow: Key, letter: char) -> bool {
        key == arrow || (self == KeyBindings::Vim && key == Key::Char(letter))
    }

    /// Check if this key code moves up
    pub fn is_up(&self, key: Key) -> (r: bool)
        ensures
            r == self.moves(key, Key::Up, 'k'),
    {
        match (self, key) {
            (_, Key::Up) => true,
            (KeyBindings::Vim, Key::Char('k')) => true,
            _ => false,
        }
    }

    /// Check if this key code moves down
    pub fn is_down(&self, key: Key) -> (r: bool)
        ensures
            r == self.moves(key, Key::Down, 'j'),
    {
        match (self, key) {
            (_, Key::Down) => true,
            (KeyBindings::Vim, Key::Char('j')) => true,
            _ => false,
        }
    }

    /// Check if this key code moves left (for tabs)
    pub fn is_left(&self, key: Key) -> (r: bool)
        ensures
            r == self.moves(key, Key::Left, 'h'),
    {
        match (self, key) {
            (_, Key::Left) => true,
            (KeyBindings::Vim, Key::Char('h')) => true,
            _ => false,
        }
    }

    /// Check if this key code moves right (for tabs)
    pub fn is_right(&self, key: Key) -> (r: bool)
        ensures
            r == self.moves(key, Key::Right, 'l'),
    {
        match (self, key) {
            (_, Key::Right) => true,
            (KeyBindings::Vim, Key::Char('l')) => true,
            _ => false,
        }
    }
}

} // verus!
