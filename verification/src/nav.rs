//! The navigation state machine: key events, session states, and the
//! transition function with its wrap-around rules.

use vstd::prelude::*;

verus! {

/// A key event delivered by the terminal, reduced to the five classes the
/// menu distinguishes.
#[derive(Clone, Copy, PartialEq, Eq, Structural, Debug)]
pub enum KeyEvent {
    Up,
    Down,
    Enter,
    Escape,
    Other,
}

/// The state of one interactive session.
///
/// `Active(i)` means the cursor highlights option `i` and the session is
/// still taking input; `Confirmed(i)` and `Cancelled` are terminal.
#[derive(Clone, Copy, PartialEq, Eq, Structural, Debug)]
pub enum NavState {
    Active(usize),
    Confirmed(usize),
    Cancelled,
}

/// Well-formedness of a session state over a menu of `n` options: an active
/// or confirmed cursor stays inside the list, and an empty list pins the
/// (inert) active cursor at `0` and can never be confirmed.
pub open spec fn state_wf(s: NavState, n: nat) -> bool {
    match s {
        NavState::Active(i) => if n == 0 { i == 0 } else { i < n },
        NavState::Confirmed(i) => i < n,
        NavState::Cancelled => true,
    }
}

/// The transition function of the session, over `n` options.
///
/// Up and Down wrap around the ends of the list; Enter confirms the current
/// index; Escape cancels; any other key is ignored. Terminal states do not
/// move. With `n == 0` there is no index to move or confirm, so Up, Down and
/// Enter are no-ops and only Escape ends the session.
pub open spec fn spec_step(s: NavState, key: KeyEvent, n: nat) -> NavState {
    match s {
        NavState::Active(i) => match key {
            KeyEvent::Up => if n == 0 {
                s
            } else if i == 0 {
                NavState::Active((n - 1) as usize)
            } else {
                NavState::Active((i - 1) as usize)
            },
            KeyEvent::Down => if n == 0 {
                s
            } else if i + 1 == n {
                NavState::Active(0)
            } else {
                NavState::Active((i + 1) as usize)
            },
            KeyEvent::Enter => if n == 0 {
                s
            } else {
                NavState::Confirmed(i)
            },
            KeyEvent::Escape => NavState::Cancelled,
            KeyEvent::Other => s,
        },
        NavState::Confirmed(_) => s,
        NavState::Cancelled => s,
    }
}

/// The same key applied `count` times in a row.
pub open spec fn spec_step_repeat(s: NavState, key: KeyEvent, count: nat, n: nat) -> NavState
    decreases count,
{
    if count == 0 {
        s
    } else {
        spec_step(spec_step_repeat(s, key, (count - 1) as nat, n), key, n)
    }
}

/// The session's loop over a finite sequence of key events: events are
/// consumed in order while the state is active; once a terminal state is
/// reached the remaining events are not read.
pub open spec fn spec_navigate(s: NavState, keys: Seq<KeyEvent>, n: nat) -> NavState
    decreases keys.len(),
{
    if keys.len() == 0 {
        s
    } else if !(s is Active) {
        s
    } else {
        spec_navigate(spec_step(s, keys[0], n), keys.drop_first(), n)
    }
}

/// The row a renderer should highlight in state `s`: the active cursor, the
/// confirmed index after confirmation, and no row after cancellation.
pub open spec fn highlight_of(s: NavState) -> Option<usize> {
    match s {
        NavState::Active(i) => Some(i),
        NavState::Confirmed(i) => Some(i),
        NavState::Cancelled => None,
    }
}

/// The confirmed index, if the session ended in confirmation.
pub open spec fn confirmed_of(s: NavState) -> Option<usize> {
    match s {
        NavState::Confirmed(i) => Some(i),
        _ => None,
    }
}

/// A transition never leaves the well-formed states.
pub proof fn lemma_step_preserves_wf(s: NavState, key: KeyEvent, n: nat)
    requires
        state_wf(s, n),
    ensures
        state_wf(spec_step(s, key, n), n),
{
}

/// Up from the first option wraps to the last; Down from the last wraps to
/// the first.
pub proof fn lemma_wrap_boundaries(n: usize)
    requires
        n >= 1,
    ensures
        spec_step(NavState::Active(0), KeyEvent::Up, n as nat) == NavState::Active((n - 1) as usize),
        spec_step(NavState::Active((n - 1) as usize), KeyEvent::Down, n as nat) == NavState::Active(0),
{
}

/// Escape cancels from every active state.
pub proof fn lemma_escape_cancels(i: usize, n: nat)
    ensures
        spec_step(NavState::Active(i), KeyEvent::Escape, n) == NavState::Cancelled,
{
}

/// Enter confirms exactly the currently highlighted index.
pub proof fn lemma_enter_confirms(i: usize, n: nat)
    requires
        n >= 1,
    ensures
        spec_step(NavState::Active(i), KeyEvent::Enter, n) == NavState::Confirmed(i),
{
}

/// After `count` Down keys from index `i` (with `i < n` and `count <= n`),
/// the cursor stands at `i + count`, reduced by `n` once it passes the end.
pub proof fn lemma_down_repeat(i: usize, count: nat, n: usize)
    requires
        n >= 1,
        i < n,
        count <= n,
    ensures
        spec_step_repeat(NavState::Active(i), KeyEvent::Down, count, n as nat) == NavState::Active(
            (if i + count < n {
                i + count
            } else {
                i + count - n
            }) as usize,
        ),
    decreases count,
{
    if count > 0 {
        lemma_down_repeat(i, (count - 1) as nat, n);
    }
}

/// After `count` Up keys from index `i` (with `i < n` and `count <= n`), the
/// cursor stands at `i - count`, raised by `n` once it passes the start.
pub proof fn lemma_up_repeat(i: usize, count: nat, n: usize)
    requires
        n >= 1,
        i < n,
        count <= n,
    ensures
        spec_step_repeat(NavState::Active(i), KeyEvent::Up, count, n as nat) == NavState::Active(
            (if count <= i {
                i - count
            } else {
                i + n - count
            }) as usize,
        ),
    decreases count,
{
    if count > 0 {
        lemma_up_repeat(i, (count - 1) as nat, n);
    }
}

/// Repeating a key one more time is the same as stepping once first and
/// repeating one time less.
proof fn lemma_repeat_shift(s: NavState, key: KeyEvent, count: nat, n: nat)
    requires
        count >= 1,
    ensures
        spec_step_repeat(s, key, count, n) == spec_step_repeat(
            spec_step(s, key, n),
            key,
            (count - 1) as nat,
            n,
        ),
    decreases count,
{
    if count > 1 {
        lemma_repeat_shift(s, key, (count - 1) as nat, n);
        let s1 = spec_step(s, key, n);
        assert(spec_step_repeat(s, key, count, n) == spec_step(
            spec_step_repeat(s, key, (count - 1) as nat, n),
            key,
            n,
        ));
        assert(spec_step_repeat(s1, key, (count - 1) as nat, n) == spec_step(
            spec_step_repeat(s1, key, (count - 2) as nat, n),
            key,
            n,
        ));
    }
}

/// Over a run of keys that cannot end the session (Up, Down, or an ignored
/// key), the session's loop behaves as the repeated transition function:
/// no early stop can occur.
pub proof fn lemma_navigate_uniform_moves(s: NavState, key: KeyEvent, count: nat, n: nat)
    requires
        s is Active,
        key == KeyEvent::Up || key == KeyEvent::Down || key == KeyEvent::Other,
    ensures
        spec_navigate(s, Seq::new(count, |i: int| key), n) == spec_step_repeat(s, key, count, n),
    decreases count,
{
    let keys = Seq::new(count, |i: int| key);
    if count > 0 {
        assert(keys[0] == key);
        assert(keys.drop_first() =~= Seq::new((count - 1) as nat, |i: int| key));
        let s1 = spec_step(s, key, n);
        assert(s1 is Active);
        lemma_navigate_uniform_moves(s1, key, (count - 1) as nat, n);
        lemma_repeat_shift(s, key, count, n);
    }
}

/// A full wrap cycle: from any starting index, `n` Down keys return to it,
/// and so do `n` Up keys.
pub proof fn lemma_full_cycle(i: usize, n: usize)
    requires
        n >= 1,
        i < n,
    ensures
        spec_step_repeat(NavState::Active(i), KeyEvent::Down, n as nat, n as nat) == NavState::Active(i),
        spec_step_repeat(NavState::Active(i), KeyEvent::Up, n as nat, n as nat) == NavState::Active(i),
{
    lemma_down_repeat(i, n as nat, n);
    lemma_up_repeat(i, n as nat, n);
}

/// The full wrap cycle as the session's loop sees it: feeding `n` Down keys
/// (or `n` Up keys) to an active session leaves the cursor where it was.
pub proof fn lemma_full_cycle_navigate(i: usize, n: usize)
    requires
        n >= 1,
        i < n,
    ensures
        spec_navigate(
            NavState::Active(i),
            Seq::new(n as nat, |j: int| KeyEvent::Down),
            n as nat,
        ) == NavState::Active(i),
        spec_navigate(NavState::Active(i), Seq::new(n as nat, |j: int| KeyEvent::Up), n as nat)
            == NavState::Active(i),
{
    lemma_navigate_uniform_moves(NavState::Active(i), KeyEvent::Down, n as nat, n as nat);
    lemma_navigate_uniform_moves(NavState::Active(i), KeyEvent::Up, n as nat, n as nat);
    lemma_full_cycle(i, n);
}

} // verus!
