//! The session controller: an input-mode state machine over a fixed host
//! list.  A session holds the input mode, the selection cursor into the
//! currently visible (filtered) list, and the search buffer.  `update`
//! consumes one key event and yields the next state together with an
//! outcome: keep looping, cancel, or choose a host.

use vstd::prelude::*;

use crate::filter::{visible, visible_count, visible_indices};

verus! {

/// Which key bindings are active.
#[derive(Clone, Copy, PartialEq, Eq, Structural, Debug)]
pub enum InputMode {
    Navigate,
    Search,
}

/// One key event, as the controller sees it.
#[derive(Clone, Copy, PartialEq, Eq, Structural, Debug)]
pub enum Event {
    /// A printable character.
    Char(char),
    /// A character pressed together with Control.
    Ctrl(char),
    Up,
    Down,
    Enter,
    Backspace,
    Esc,
    /// Any key the controller does not bind.
    Other,
}

/// What one step of the controller decided.
#[derive(PartialEq, Eq, Debug)]
pub enum Outcome {
    /// Keep reading events.
    Continue,
    /// The user quit without choosing.
    Cancelled,
    /// The user confirmed the host at this position of the full host list.
    Chosen(usize),
}

/// Mutable session state: mode, cursor into the visible list, search buffer.
pub struct Session {
    pub mode: InputMode,
    pub cursor: usize,
    pub buffer: Vec<char>,
}

/// Mathematical image of a session.
pub struct SessionView {
    pub mode: InputMode,
    pub cursor: int,
    pub buffer: Seq<char>,
}

impl View for Session {
    type V = SessionView;

    open spec fn view(&self) -> SessionView {
        SessionView { mode: self.mode, cursor: self.cursor as int, buffer: self.buffer@ }
    }
}

/// The cursor is valid for the visible list: inside it when anything is
/// visible, pinned to zero when nothing is.
pub open spec fn session_inv(names: Seq<Seq<char>>, v: SessionView) -> bool {
    &&& visible_count(names, v.buffer) > 0 ==> 0 <= v.cursor < visible_count(names, v.buffer)
    &&& visible_count(names, v.buffer) == 0 ==> v.cursor == 0
}

/// Clamp a cursor into `[0, max(0, n - 1)]` after the visible list changed
/// size: an out-of-range cursor moves to the last valid position.
pub open spec fn clamp_cursor(n: int, c: int) -> int {
    if n <= 0 {
        0
    } else if c >= n {
        n - 1
    } else if c < 0 {
        0
    } else {
        c
    }
}

/// Cursor after one circular step up through `n` visible entries.
pub open spec fn step_up(n: int, c: int) -> int {
    if n <= 0 {
        c
    } else if c == 0 {
        n - 1
    } else {
        c - 1
    }
}

/// Cursor after one circular step down through `n` visible entries.
pub open spec fn step_down(n: int, c: int) -> int {
    if n <= 0 {
        c
    } else if c >= n - 1 {
        0
    } else {
        c + 1
    }
}

/// The session state after one event.
pub open spec fn step_state(names: Seq<Seq<char>>, v: SessionView, ev: Event) -> SessionView {
    let n = visible_count(names, v.buffer);
    match v.mode {
        InputMode::Navigate => match ev {
            Event::Char(c) => if c == 'i' || c == 's' {
                SessionView { mode: InputMode::Search, ..v }
            } else {
                v
            },
            Event::Up => SessionView { cursor: step_up(n, v.cursor), ..v },
            Event::Down => SessionView { cursor: step_down(n, v.cursor), ..v },
            Event::Ctrl(c) => if c == 'p' {
                SessionView { cursor: step_up(n, v.cursor), ..v }
            } else if c == 'n' {
                SessionView { cursor: step_down(n, v.cursor), ..v }
            } else {
                v
            },
            _ => v,
        },
        InputMode::Search => match ev {
            Event::Esc => cancel_search(names, v),
            Event::Ctrl(c) => if c == 'c' {
                cancel_search(names, v)
            } else {
                v
            },
            Event::Backspace => if v.buffer.len() > 0 {
                refilter(names, v, v.buffer.drop_last())
            } else {
                v
            },
            Event::Char(c) => refilter(names, v, v.buffer.push(c)),
            _ => v,
        },
    }
}

/// Leave Search: the buffer empties, the mode returns to Navigate, and the
/// cursor is clamped into the restored full list.
pub open spec fn cancel_search(names: Seq<Seq<char>>, v: SessionView) -> SessionView {
    SessionView {
        mode: InputMode::Navigate,
        cursor: clamp_cursor(visible_count(names, Seq::<char>::empty()), v.cursor),
        buffer: Seq::<char>::empty(),
    }
}

/// Replace the buffer and clamp the cursor into the new visible list.
pub open spec fn refilter(names: Seq<Seq<char>>, v: SessionView, buffer: Seq<char>) -> SessionView {
    SessionView { cursor: clamp_cursor(visible_count(names, buffer), v.cursor), buffer, ..v }
}

/// The event ends the session without a choice: quitting from Navigate.
pub open spec fn step_cancels(v: SessionView, ev: Event) -> bool {
    v.mode == InputMode::Navigate && (ev == Event::Char('q') || ev == Event::Ctrl('c'))
}

/// The position (in the full host list) the event confirms, if any: Enter
/// with a non-empty visible list chooses the entry under the cursor; Enter
/// with an empty visible list is a no-op.
pub open spec fn step_choice(names: Seq<Seq<char>>, v: SessionView, ev: Event) -> Option<int> {
    let vis = visible_indices(names, v.buffer);
    if ev == Event::Enter && 0 <= v.cursor < vis.len() {
        Some(vis[v.cursor])
    } else {
        None
    }
}

/// Advance the session by one key event.  The new state, and whether the
/// session ends (and with which host), follow the state machine's
/// transition relation exactly.
pub fn update(hosts: &Vec<Vec<char>>, s: &mut Session, ev: Event) -> (out: Outcome)
    ensures
        final(s)@ == step_state(hosts.deep_view(), old(s)@, ev),
        out is Cancelled <==> step_cancels(old(s)@, ev),
        out is Chosen <==> step_choice(hosts.deep_view(), old(s)@, ev) is Some,
        out matches Outcome::Chosen(i) ==> step_choice(hosts.deep_view(), old(s)@, ev) == Some(
            i as int,
        ),
{
    let ghost names = hosts.deep_view();
    let ghost v0 = s@;
    match s.mode {
        InputMode::Navigate => match ev {
            Event::Char(c) => {
                if c == 'q' {
                    Outcome::Cancelled
                } else if c == 'i' || c == 's' {
                    s.mode = InputMode::Search;
                    Outcome::Continue
                } else {
                    Outcome::Continue
                }
            },
            Event::Ctrl(c) => {
                if c == 'c' {
                    Outcome::Cancelled
                } else if c == 'p' {
                    move_up(hosts, s);
                    Outcome::Continue
                } else if c == 'n' {
                    move_down(hosts, s);
                    Outcome::Continue
                } else {
                    Outcome::Continue
                }
            },
            Event::Up => {
                move_up(hosts, s);
                Outcome::Continue
            },
            Event::Down => {
                move_down(hosts, s);
                Outcome::Continue
            },
            Event::Enter => confirm(hosts, s),
            _ => Outcome::Continue,
        },
        InputMode::Search => match ev {
            Event::Esc => {
                cancel_search_exec(hosts, s);
                Outcome::Continue
            },
            Event::Ctrl(c) => {
                if c == 'c' {
                    cancel_search_exec(hosts, s);
                }
                Outcome::Continue
            },
            Event::Backspace => {
                if s.buffer.len() > 0 {
                    s.buffer.pop();
                    reclamp(hosts, s);
                }
                Outcome::Continue
            },
            Event::Char(c) => {
                s.buffer.push(c);
                reclamp(hosts, s);
                Outcome::Continue
            },
            Event::Enter => confirm(hosts, s),
            _ => Outcome::Continue,
        },
    }
}

/// Circular move up within the visible list.
fn move_up(hosts: &Vec<Vec<char>>, s: &mut Session)
    ensures
        final(s)@ == (SessionView {
            cursor: step_up(visible_count(hosts.deep_view(), old(s)@.buffer), old(s)@.cursor),
            ..old(s)@
        }),
{
    let vis = visible(hosts, &s.buffer);
    if vis.len() > 0 {
        if s.cursor == 0 {
            s.cursor = vis.len() - 1;
        } else {
            s.cursor = s.cursor - 1;
        }
    }
}

/// Circular move down within the visible list.
fn move_down(hosts: &Vec<Vec<char>>, s: &mut Session)
    ensures
        final(s)@ == (SessionView {
            cursor: step_down(visible_count(hosts.deep_view(), old(s)@.buffer), old(s)@.cursor),
            ..old(s)@
        }),
{
    let vis = visible(hosts, &s.buffer);
    if vis.len() > 0 {
        if s.cursor >= vis.len() - 1 {
            s.cursor = 0;
        } else {
            s.cursor = s.cursor + 1;
        }
    }
}

/// Confirm: choose the visible entry under the cursor, or do nothing when
/// the visible list is empty or the cursor is out of range.
fn confirm(hosts: &Vec<Vec<char>>, s: &mut Session) -> (out: Outcome)
    ensures
        *final(s) == *old(s),
        out !is Cancelled,
        out is Chosen <==> step_choice(hosts.deep_view(), old(s)@, Event::Enter) is Some,
        out matches Outcome::Chosen(i) ==> step_choice(hosts.deep_view(), old(s)@, Event::Enter)
            == Some(i as int),
{
    let vis = visible(hosts, &s.buffer);
    if s.cursor < vis.len() {
        Outcome::Chosen(vis[s.cursor])
    } else {
        Outcome::Continue
    }
}

/// Empty the buffer, return to Navigate, clamp the cursor to the full list.
fn cancel_search_exec(hosts: &Vec<Vec<char>>, s: &mut Session)
    ensures
        final(s)@ == cancel_search(hosts.deep_view(), old(s)@),
{
    s.buffer.clear();
    s.mode = InputMode::Navigate;
    proof {
        assert(s.buffer@ =~= Seq::<char>::empty());
    }
    reclamp(hosts, s);
}

/// Clamp the cursor into the current visible list.
fn reclamp(hosts: &Vec<Vec<char>>, s: &mut Session)
    ensures
        final(s)@ == (SessionView {
            cursor: clamp_cursor(
                visible_count(hosts.deep_view(), old(s)@.buffer),
                old(s)@.cursor,
            ),
            ..old(s)@
        }),
{
    let vis = visible(hosts, &s.buffer);
    if vis.len() == 0 {
        s.cursor = 0;
    } else if s.cursor >= vis.len() {
        s.cursor = vis.len() - 1;
    }
}

/// The session state after a whole sequence of events, first event first.
pub open spec fn run_steps(names: Seq<Seq<char>>, v: SessionView, evs: Seq<Event>) -> SessionView
    decreases evs.len(),
{
    if evs.len() <= 0 {
        v
    } else {
        run_steps(names, step_state(names, v, evs.first()), evs.drop_first())
    }
}

/// One step keeps the cursor valid for the visible list.
pub proof fn lemma_step_preserves_inv(names: Seq<Seq<char>>, v: SessionView, ev: Event)
    requires
        session_inv(names, v),
    ensures
        session_inv(names, step_state(names, v, ev)),
{
}

/// However many events arrive, the cursor stays valid for the visible
/// list: within `[0, N-1]` whenever `N` entries are visible.
pub proof fn lemma_run_preserves_inv(names: Seq<Seq<char>>, v: SessionView, evs: Seq<Event>)
    requires
        session_inv(names, v),
    ensures
        session_inv(names, run_steps(names, v, evs)),
    decreases evs.len(),
{
    if evs.len() > 0 {
        lemma_step_preserves_inv(names, v, evs.first());
        lemma_run_preserves_inv(names, step_state(names, v, evs.first()), evs.drop_first());
    }
}

/// Navigation wraps circularly: with `N > 0` visible entries, Up at the
/// top lands on `N - 1`, Down at the bottom lands on `0`, and both moves
/// stay within `[0, N-1]`.
pub proof fn lemma_navigation_wraps(names: Seq<Seq<char>>, v: SessionView, ev: Event)
    requires
        session_inv(names, v),
        v.mode == InputMode::Navigate,
        visible_count(names, v.buffer) > 0,
        ev == Event::Up || ev == Event::Down || ev == Event::Ctrl('p') || ev == Event::Ctrl('n'),
    ensures
        0 <= step_state(names, v, ev).cursor < visible_count(names, v.buffer),
        (ev == Event::Up || ev == Event::Ctrl('p')) && v.cursor == 0 ==> step_state(
            names,
            v,
            ev,
        ).cursor == visible_count(names, v.buffer) - 1,
        (ev == Event::Down || ev == Event::Ctrl('n')) && v.cursor == visible_count(
            names,
            v.buffer,
        ) - 1 ==> step_state(names, v, ev).cursor == 0,
        step_state(names, v, ev).buffer == v.buffer,
        step_state(names, v, ev).mode == v.mode,
{
}

/// Cancelling a search always lands in Navigate with an empty buffer,
/// whatever the buffer held.
pub proof fn lemma_cancel_clears_search(names: Seq<Seq<char>>, v: SessionView, ev: Event)
    requires
        v.mode == InputMode::Search,
        ev == Event::Esc || ev == Event::Ctrl('c'),
    ensures
        step_state(names, v, ev).mode == InputMode::Navigate,
        step_state(names, v, ev).buffer == Seq::<char>::empty(),
{
}

/// Confirming against an empty visible list changes nothing: the state is
/// untouched and the session neither ends nor chooses.
pub proof fn lemma_confirm_empty_is_noop(names: Seq<Seq<char>>, v: SessionView)
    requires
        visible_count(names, v.buffer) == 0,
    ensures
        step_state(names, v, Event::Enter) == v,
        step_choice(names, v, Event::Enter) is None,
        !step_cancels(v, Event::Enter),
{
}

/// The display name at position `i` of the full host list, as a fresh
/// vector: how a `Chosen` outcome is resolved to a name.
pub fn host_name(hosts: &Vec<Vec<char>>, i: usize) -> (name: Vec<char>)
    requires
        i < hosts.len(),
    ensures
        name@ == hosts.deep_view()[i as int],
{
    let mut name: Vec<char> = Vec::new();
    let mut j: usize = 0;
    while j < hosts[i].len()
        invariant
            i < hosts.len(),
            0 <= j <= hosts[i as int].len(),
            name@ =~= hosts[i as int]@.subrange(0, j as int),
        decreases hosts[i as int].len() - j,
    {
        name.push(hosts[i][j]);
        j = j + 1;
    }
    proof {
        assert(name@ =~= hosts[i as int]@);
        assert(hosts.deep_view()[i as int] == hosts[i as int]@);
    }
    name
}

/// A fresh session: Navigate mode, cursor at the top, empty buffer.
pub fn new_session() -> (s: Session)
    ensures
        s@.mode == InputMode::Navigate,
        s@.cursor == 0,
        s@.buffer == Seq::<char>::empty(),
{
    let s = Session { mode: InputMode::Navigate, cursor: 0, buffer: Vec::new() };
    proof {
        assert(s.buffer@ =~= Seq::<char>::empty());
    }
    s
}

} // verus!
