//! Screen state: the closed set of UI modes, with a stable mapping to small
//! ordinals so the dispatcher can name a target screen uniformly.

use vstd::prelude::*;

verus! {

/// One discrete UI mode in the menu flow. `Exit` is the terminal
/// state; the host loop runs exactly while the screen differs from it.
/// `One` lists the distributions, `Two` lists the install/uninstall actions,
/// and `Three` is reserved.
#[derive(Clone, Copy, Debug, PartialEq, Eq, Structural)]
pub enum Screen {
    Exit,
    One,
    Two,
    Three,
}

/// The stable ordinal of each screen: Exit is 0, One is 1, Two is 2,
/// Three is 3.
pub open spec fn ordinal_spec(s: Screen) -> int {
    match s {
        Screen::Exit => 0,
        Screen::One => 1,
        Screen::Two => 2,
        Screen::Three => 3,
    }
}

/// The screen named by an ordinal in `0..=3`; out-of-range ordinals are
/// never produced by the dispatcher and are excluded by `Screen::from_u8`.
pub open spec fn screen_of_ordinal_spec(n: int) -> Screen {
    if n == 0 {
        Screen::Exit
    } else if n == 1 {
        Screen::One
    } else if n == 2 {
        Screen::Two
    } else {
        Screen::Three
    }
}

impl Screen {
    /// Convert an ordinal back to a screen. Ordinals must come from the
    /// dispatcher itself, which only produces values in `0..=3`; anything
    /// else is a broken invariant, not recoverable input.
    pub fn from_u8(num: u8) -> (r: Self)
        requires
            num <= 3,
        ensures
            r == screen_of_ordinal_spec(num as int),
    {
        match num {
            0 => Screen::Exit,
            1 => Screen::One,
            2 => Screen::Two,
            _ => Screen::Three,
        }
    }

    /// The ordinal of this screen.
    pub fn to_u8(&self) -> (r: u8)
        ensures
            r as int == ordinal_spec(*self),
    {
        match self {
            Screen::Exit => 0,
            Screen::One => 1,
            Screen::Two => 2,
            Screen::Three => 3,
        }
    }
}

} // verus!
