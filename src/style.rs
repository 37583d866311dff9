use vstd::prelude::*;

verus! {

/// A set of visual attributes. Unset colors fall through to whatever lies below;
/// modifiers are bit sets (bold, italic, ...) that are added or removed.
#[derive(Clone, Copy, Debug, PartialEq, Eq, Structural)]
pub struct Style {
    pub fg: Option<u32>,
    pub bg: Option<u32>,
    pub add_modifier: u16,
    pub sub_modifier: u16,
}

/// The first of two optional values that is set.
pub open spec fn or_spec(first: Option<u32>, second: Option<u32>) -> Option<u32> {
    if first.is_some() { first } else { second }
}

impl Style {
    /// The style that sets nothing.
    pub open spec fn empty_spec() -> Style {
        Style { fg: None, bg: None, add_modifier: 0, sub_modifier: 0 }
    }

    /// `self` overridden by `other`: the overlay wins wherever it sets something.
    pub open spec fn patch_spec(self, other: Style) -> Style {
        Style {
            fg: or_spec(other.fg, self.fg),
            bg: or_spec(other.bg, self.bg),
            add_modifier: (self.add_modifier & !other.sub_modifier) | other.add_modifier,
            sub_modifier: (self.sub_modifier & !other.add_modifier) | other.sub_modifier,
        }
    }

    pub fn empty() -> (r: Style)
        ensures
            r == Style::empty_spec(),
    {
        Style { fg: None, bg: None, add_modifier: 0, sub_modifier: 0 }
    }

    pub fn patch(self, other: Style) -> (r: Style)
        ensures
            r == self.patch_spec(other),
    {
        let fg = match other.fg {
            Some(c) => Some(c),
            None => self.fg,
        };
        let bg = match other.bg {
            Some(c) => Some(c),
            None => self.bg,
        };
        Style {
            fg,
            bg,
            add_modifier: (self.add_modifier & !other.sub_modifier) | other.add_modifier,
            sub_modifier: (self.sub_modifier & !other.add_modifier) | other.sub_modifier,
        }
    }
}

/// A location in the document.
#[derive(Clone, Copy, Debug, PartialEq, Eq, Structural)]
pub struct Position {
    pub row: usize,
    pub col: usize,
}

/// A rectangle of screen cells.
#[derive(Clone, Copy, Debug, PartialEq, Eq, Structural)]
pub struct Rect {
    pub x: u16,
    pub y: u16,
    pub width: u16,
    pub height: u16,
}

impl Rect {
    /// The rectangle's cells all have coordinates that fit a `u16`.
    pub open spec fn fits(self) -> bool {
        self.x + self.width <= u16::MAX && self.y + self.height <= u16::MAX
    }
}

} // verus!
