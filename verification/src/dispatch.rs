//! The event dispatcher: maps (screen, key) pairs to a transition (target
//! screen ordinal, cursor offset), then applies cursor arithmetic and
//! updates the application state.

use vstd::prelude::*;

use crate::app::App;
use crate::cursor::clamp_add;
use crate::cursor::clamp_add_spec;
use crate::screen::ordinal_spec;
use crate::screen::screen_of_ordinal_spec;
use crate::screen::Screen;

verus! {

/// One discrete keyboard event, as the dispatcher distinguishes them. The
/// host layer translates whatever its input source produces into this form;
/// `Other` stands for any key the transition table does not name.
#[derive(Clone, Copy, Debug, PartialEq, Eq, Structural)]
pub enum KeyEvent {
    Up,
    Down,
    Backspace,
    Esc,
    Char(char),
    Ctrl(char),
    Other,
}

/// The (screen, key) pairs whose behaviour is deliberately left undefined:
/// Backspace, Up and Down on screen Two. A correct host never reaches them;
/// reaching one is a broken invariant, to be failed loudly, not a silent
/// no-op.
pub open spec fn unimplemented_transition(s: Screen, k: KeyEvent) -> bool {
    s == Screen::Two && (k == KeyEvent::Backspace || k == KeyEvent::Up || k == KeyEvent::Down)
}

/// The transition table: for a (screen, key) pair, the target screen
/// ordinal and the cursor offset. Any unmatched pair stays on the current
/// screen with offset 0.
pub open spec fn transition_spec(s: Screen, k: KeyEvent) -> (int, int) {
    match (s, k) {
        (Screen::One, KeyEvent::Up) => (1int, -1int),
        (Screen::One, KeyEvent::Esc) => (0int, 0int),
        (Screen::One, KeyEvent::Down) => (1int, 1int),
        (Screen::One, KeyEvent::Ctrl('c')) => (0int, 0int),
        (Screen::One, KeyEvent::Char('q')) => (0int, 0int),
        (Screen::One, KeyEvent::Char('\n')) => (2int, 0int),
        (Screen::Two, KeyEvent::Char('q')) => (0int, 0int),
        (Screen::Two, KeyEvent::Ctrl('c')) => (0int, 0int),
        (Screen::Two, KeyEvent::Esc) => (0int, 0int),
        (Screen::Three, KeyEvent::Char('\n')) => (3int, 0int),
        _ => (ordinal_spec(s), 0int),
    }
}

/// Every transition targets a valid screen ordinal and steps the cursor by
/// at most one row.
pub proof fn lemma_transition_in_range(s: Screen, k: KeyEvent)
    ensures
        0 <= transition_spec(s, k).0 <= 3,
        -1 <= transition_spec(s, k).1 <= 1,
{
}

/// Whether the pair (screen, key) has no defined transition. The host
/// checks this before dispatching and fails fast when it holds.
pub fn transition_is_unimplemented(screen: &Screen, key: &KeyEvent) -> (r: bool)
    ensures
        r == unimplemented_transition(*screen, *key),
{
    match (screen, key) {
        (Screen::Two, KeyEvent::Backspace) => true,
        (Screen::Two, KeyEvent::Up) => true,
        (Screen::Two, KeyEvent::Down) => true,
        _ => false,
    }
}

/// Look up the transition for (screen, key): the target screen ordinal and
/// the cursor offset.
pub fn transition(screen: &Screen, key: &KeyEvent) -> (r: (u8, isize))
    requires
        !unimplemented_transition(*screen, *key),
    ensures
        r.0 as int == transition_spec(*screen, *key).0,
        r.1 as int == transition_spec(*screen, *key).1,
        r.0 <= 3,
{
    match (screen, key) {
        (Screen::One, KeyEvent::Up) => (1, -1),
        (Screen::One, KeyEvent::Esc) => (0, 0),
        (Screen::One, KeyEvent::Down) => (1, 1),
        (Screen::One, KeyEvent::Ctrl('c')) => (0, 0),
        (Screen::One, KeyEvent::Char('q')) => (0, 0),
        (Screen::One, KeyEvent::Char('\n')) => (2, 0),
        (Screen::Two, KeyEvent::Char('q')) => (0, 0),
        (Screen::Two, KeyEvent::Ctrl('c')) => (0, 0),
        (Screen::Two, KeyEvent::Esc) => (0, 0),
        (Screen::Three, KeyEvent::Char('\n')) => (3, 0),
        _ => (screen.to_u8(), 0),
    }
}

/// Dispatch one key event: look up the transition for the current screen,
/// clamp the cursor against the catalog length, switch to the target
/// screen, and write the new cursor into the selected-distribution field.
pub fn handle_event(key: KeyEvent, screen: &mut Screen, cp: &mut usize, app: &mut App)
    requires
        !unimplemented_transition(*old(screen), key),
        old(app).wf(),
    ensures
        ordinal_spec(*final(screen)) == transition_spec(*old(screen), key).0,
        *final(screen) == screen_of_ordinal_spec(transition_spec(*old(screen), key).0),
        *final(cp) as int == clamp_add_spec(
            old(app).distros.spec_len(),
            *old(cp) as int,
            transition_spec(*old(screen), key).1,
        ),
        final(app).selected_distro == *final(cp),
        final(app).distros == old(app).distros,
        final(app).selected_packages == old(app).selected_packages,
        final(app).is_running == old(app).is_running,
        final(app).wf(),
{
    let (new_screen, offset) = transition(screen, &key);
    let dlength = app.distros.len();
    *cp = clamp_add(dlength, *cp, offset);
    *screen = Screen::from_u8(new_screen);
    app.set_distro(*cp);
    proof {
        lemma_transition_in_range(*old(screen), key);
        crate::laws::lemma_ordinal_screen_round_trip(transition_spec(*old(screen), key).0);
    }
}

} // verus!
