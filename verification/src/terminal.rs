//! A model of the terminal lifecycle.  The picker switches the terminal
//! into raw input on the alternate screen with the cursor hidden, and must
//! put all three back on every exit path.  The flags here mirror what the
//! real terminal-control calls change, so teardown can be proved safe to
//! repeat: a second call after the first is a harmless no-op.

use vstd::prelude::*;

verus! {

/// Which of the picker's terminal alterations are in effect.
#[derive(Clone, Copy, PartialEq, Eq, Structural, Debug)]
pub struct TermState {
    /// Raw input: no line buffering, no echo.
    pub raw_mode: bool,
    /// The alternate screen buffer is active.
    pub alternate_screen: bool,
    /// The text cursor is hidden.
    pub cursor_hidden: bool,
}

/// The terminal as the picker leaves it: everything restored.
pub open spec fn restored() -> TermState {
    TermState { raw_mode: false, alternate_screen: false, cursor_hidden: false }
}

/// The terminal as the picker runs: raw input, alternate screen, cursor
/// hidden.
pub open spec fn engaged() -> TermState {
    TermState { raw_mode: true, alternate_screen: true, cursor_hidden: true }
}

/// What setup does to the terminal, whatever state it starts from.
pub open spec fn setup_spec(s: TermState) -> TermState {
    engaged()
}

/// What teardown does to the terminal, whatever state it starts from.
pub open spec fn teardown_spec(s: TermState) -> TermState {
    restored()
}

/// Engage raw input, the alternate screen and the hidden cursor.
pub fn apply_setup(s: &mut TermState)
    ensures
        *final(s) == setup_spec(*old(s)),
{
    s.raw_mode = true;
    s.alternate_screen = true;
    s.cursor_hidden = true;
}

/// Restore the terminal, from any state.
pub fn apply_teardown(s: &mut TermState)
    ensures
        *final(s) == teardown_spec(*old(s)),
{
    s.raw_mode = false;
    s.alternate_screen = false;
    s.cursor_hidden = false;
}

/// Teardown is idempotent: running it twice leaves the terminal exactly
/// as running it once does.
pub proof fn lemma_teardown_idempotent(s: TermState)
    ensures
        teardown_spec(teardown_spec(s)) == teardown_spec(s),
{
}

/// Teardown restores the terminal from any state, in particular from the
/// engaged state setup produces.
pub proof fn lemma_teardown_restores(s: TermState)
    ensures
        teardown_spec(setup_spec(s)) == restored(),
        teardown_spec(s) == restored(),
{
}

} // verus!
