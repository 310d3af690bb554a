//! The icons of the interface, as characters of the Material Icons font.
use vstd::prelude::*;

verus! {

/// An icon of the interface.
#[derive(Clone, Copy, Debug, PartialEq, Eq, Structural)]
pub enum Icon {
    AddCircle,
    ArrowBack,
    ArrowDownward,
    ArrowForward,
    ArrowUpward,
    Error,
    FolderOpen,
    Info,
    KeyboardArrowDown,
    KeyboardArrowRight,
    RemoveCircle,
    Search,
    Settings,
    SubdirectoryArrowRight,
}

impl Icon {
    /// The icon's code point in the font.
    pub open spec fn code_point(self) -> u32 {
        match self {
            Icon::AddCircle => 0xE147,
            Icon::ArrowBack => 0xe5c4,
            Icon::ArrowDownward => 0xE5DB,
            Icon::ArrowForward => 0xe5c8,
            Icon::ArrowUpward => 0xE5D8,
            Icon::Error => 0xe001,
            Icon::FolderOpen => 0xE2C8,
            Icon::Info => 0xe88f,
            Icon::KeyboardArrowDown => 0xE313,
            Icon::KeyboardArrowRight => 0xE315,
            Icon::RemoveCircle => 0xE15C,
            Icon::Search => 0xe8b6,
            Icon::Settings => 0xE8B8,
            Icon::SubdirectoryArrowRight => 0xE5DA,
        }
    }

    /// The icon's character in the font.
    pub fn as_char(&self) -> (r: char)
        ensures
            r as u32 == self.code_point(),
    {
        match self {
            Icon::AddCircle => '\u{E147}',
            Icon::ArrowBack => '\u{e5c4}',
            Icon::ArrowDownward => '\u{E5DB}',
            Icon::ArrowForward => '\u{e5c8}',
            Icon::ArrowUpward => '\u{E5D8}',
            Icon::Error => '\u{e001}',
            Icon::FolderOpen => '\u{E2C8}',
            Icon::Info => '\u{e88f}',
            Icon::KeyboardArrowDown => '\u{E313}',
            Icon::KeyboardArrowRight => '\u{E315}',
            Icon::RemoveCircle => '\u{E15C}',
            Icon::Search => '\u{e8b6}',
            Icon::Settings => '\u{E8B8}',
            Icon::SubdirectoryArrowRight => '\u{E5DA}',
        }
    }
}

/// Distinct icons have distinct characters.
pub proof fn law_icons_distinct(a: Icon, b: Icon)
    requires
        a != b,
    ensures
        a.code_point() != b.code_point(),
{
}

} // verus!
