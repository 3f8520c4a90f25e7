//! Interaction state: which pane holds focus, which mode the client is in,
//! and the transition function that keyboard events drive.

use vstd::prelude::*;

verus! {

/// Which pane currently receives pane-specific key bindings and visual
/// emphasis. Exactly one pane is focused at any time.
#[derive(Clone, Copy, Debug, PartialEq, Eq, Structural)]
pub enum FocusTarget {
    Messages,
    Input,
    Channels,
}

/// Global interaction mode: in `Normal` mode keys are commands, in `Insert`
/// mode keys are literal text destined for the input pane.
#[derive(Clone, Copy, Debug, PartialEq, Eq, Structural)]
pub enum AppMode {
    Normal,
    Insert,
}

/// Position of a pane in the cyclic focus order
/// (Messages, then Input, then Channels).
pub open spec fn spec_focus_index(f: FocusTarget) -> int {
    match f {
        FocusTarget::Messages => 0,
        FocusTarget::Input => 1,
        FocusTarget::Channels => 2,
    }
}

/// The pane standing at a position of the cyclic focus order.
pub open spec fn spec_focus_at(i: int) -> FocusTarget {
    if i == 0 {
        FocusTarget::Messages
    } else if i == 1 {
        FocusTarget::Input
    } else {
        FocusTarget::Channels
    }
}

/// The pane after `f` in the focus ring.
pub open spec fn spec_next_focus(f: FocusTarget) -> FocusTarget {
    spec_focus_at((spec_focus_index(f) + 1) % 3)
}

/// The pane before `f` in the focus ring.
pub open spec fn spec_prev_focus(f: FocusTarget) -> FocusTarget {
    spec_focus_at((spec_focus_index(f) + 2) % 3)
}

/// The focus order as a table: pane to index.
pub fn focus_index(f: FocusTarget) -> (i: usize)
    ensures
        i == spec_focus_index(f),
        i < 3,
{
    match f {
        FocusTarget::Messages => 0,
        FocusTarget::Input => 1,
        FocusTarget::Channels => 2,
    }
}

/// The focus order as a table: index to pane.
pub fn focus_at(i: usize) -> (f: FocusTarget)
    requires
        i < 3,
    ensures
        f == spec_focus_at(i as int),
{
    if i == 0 {
        FocusTarget::Messages
    } else if i == 1 {
        FocusTarget::Input
    } else {
        FocusTarget::Channels
    }
}

/// The next pane in the ring, by index arithmetic over the focus order.
pub fn next_focus(f: FocusTarget) -> (r: FocusTarget)
    ensures
        r == spec_next_focus(f),
{
    focus_at((focus_index(f) + 1) % 3)
}

/// The previous pane in the ring, by index arithmetic over the focus order.
pub fn prev_focus(f: FocusTarget) -> (r: FocusTarget)
    ensures
        r == spec_prev_focus(f),
{
    focus_at((focus_index(f) + 2) % 3)
}

/// The kind of a keyboard event: only presses drive transitions.
#[derive(Clone, Copy, Debug, PartialEq, Eq, Structural)]
pub enum EventKind {
    Press,
    Release,
    Repeat,
}

/// The key carried by a keyboard event, as far as the state machine reads
/// it: a printable character, the three navigation keys, or anything else.
#[derive(Clone, Copy, Debug, PartialEq, Eq, Structural)]
pub enum KeyCode {
    Char(char),
    Tab,
    BackTab,
    Esc,
    Other,
}

/// One keyboard event as handed in by the terminal runtime.
#[derive(Clone, Copy, Debug, PartialEq, Eq, Structural)]
pub struct KeyEvent {
    pub kind: EventKind,
    pub code: KeyCode,
}

/// A key press of the given key.
pub open spec fn press(code: KeyCode) -> KeyEvent {
    KeyEvent { kind: EventKind::Press, code }
}

/// The interaction state: the one mutable entity of the core, owned by the
/// run loop and read by the view composer.
#[derive(Clone, Copy, Debug, PartialEq, Eq, Structural)]
pub struct App {
    pub focus: FocusTarget,
    pub mode: AppMode,
    pub should_exit: bool,
}

impl Default for App {
    /// A fresh state: focus on the message pane, command mode, not exiting.
    fn default() -> (s: Self)
        ensures
            s == (App { focus: FocusTarget::Messages, mode: AppMode::Normal, should_exit: false }),
    {
        App { focus: FocusTarget::Messages, mode: AppMode::Normal, should_exit: false }
    }
}

/// States the transition function can reach: the exit flag is raised only
/// from command mode, so an exiting state is still in `Normal` mode.
pub open spec fn wf(s: App) -> bool {
    s.should_exit ==> s.mode is Normal
}

/// What one pressed key does to a live (not yet exiting) state: `q` quits and
/// `i` enters `Insert`, but only as commands in `Normal` mode; `Tab` and
/// `Shift+Tab` cycle focus, again only in `Normal` mode; `Escape` always
/// returns to `Normal`; every other key leaves the state unchanged.
pub open spec fn spec_key_transition(s: App, code: KeyCode) -> App {
    match code {
        KeyCode::Char(c) => {
            if c == 'q' && s.mode is Normal {
                App { should_exit: true, ..s }
            } else if c == 'i' && s.mode is Normal {
                App { mode: AppMode::Insert, ..s }
            } else {
                s
            }
        },
        KeyCode::Tab => {
            if s.mode is Normal {
                App { focus: spec_next_focus(s.focus), ..s }
            } else {
                s
            }
        },
        KeyCode::BackTab => {
            if s.mode is Normal {
                App { focus: spec_prev_focus(s.focus), ..s }
            } else {
                s
            }
        },
        KeyCode::Esc => App { mode: AppMode::Normal, ..s },
        KeyCode::Other => s,
    }
}

/// What one event does to the state: an exiting state is terminal, only key
/// presses count, and a press acts as `spec_key_transition` says.
pub open spec fn spec_transition(s: App, e: KeyEvent) -> App {
    if s.should_exit {
        s
    } else if !(e.kind is Press) {
        s
    } else {
        spec_key_transition(s, e.code)
    }
}

impl App {
    /// Keybindings and navigation: apply one pressed key to a live state.
    pub fn handle_key_event(&mut self, code: KeyCode)
        ensures
            *final(self) == spec_key_transition(*old(self), code),
    {
        match code {
            KeyCode::Char(c) => {
                if c == 'q' {
                    match self.mode {
                        AppMode::Normal => self.should_exit = true,
                        _ => {},
                    }
                } else if c == 'i' {
                    match self.mode {
                        AppMode::Normal => self.mode = AppMode::Insert,
                        _ => {},
                    }
                }
            },
            KeyCode::Tab => {
                match self.mode {
                    AppMode::Normal => self.focus = next_focus(self.focus),
                    _ => {},
                }
            },
            KeyCode::BackTab => {
                match self.mode {
                    AppMode::Normal => self.focus = prev_focus(self.focus),
                    _ => {},
                }
            },
            KeyCode::Esc => self.mode = AppMode::Normal,
            KeyCode::Other => {},
        }
    }

    /// Apply one input event to the state. Total and deterministic: an
    /// exiting state never changes again, and only key presses act.
    pub fn transition(&mut self, event: KeyEvent)
        ensures
            *final(self) == spec_transition(*old(self), event),
    {
        if self.should_exit {
            return;
        }
        match event.kind {
            EventKind::Press => self.handle_key_event(event.code),
            _ => {},
        }
    }
}

/// Focus cycling is a closed ring of three panes: stepping forward three
/// times, or back three times, returns to the start, and one step forward
/// then one step back (or the reverse) is the identity.
pub proof fn lemma_focus_ring_cycle(f: FocusTarget)
    ensures
        spec_next_focus(spec_next_focus(spec_next_focus(f))) == f,
        spec_prev_focus(spec_prev_focus(spec_prev_focus(f))) == f,
        spec_prev_focus(spec_next_focus(f)) == f,
        spec_next_focus(spec_prev_focus(f)) == f,
{
}

/// Pressing `Tab` three times, or `Shift+Tab` three times, brings focus back
/// to where it started, and `Tab` then `Shift+Tab` leaves focus as it was —
/// from every state: in `Normal` mode the ring closes, in any other case
/// these keys do not move focus at all.
pub proof fn lemma_tab_three_cycle(s: App)
    ensures
        spec_transition(
            spec_transition(spec_transition(s, press(KeyCode::Tab)), press(KeyCode::Tab)),
            press(KeyCode::Tab),
        ).focus == s.focus,
        spec_transition(
            spec_transition(spec_transition(s, press(KeyCode::BackTab)), press(KeyCode::BackTab)),
            press(KeyCode::BackTab),
        ).focus == s.focus,
        spec_transition(spec_transition(s, press(KeyCode::Tab)), press(KeyCode::BackTab)).focus
            == s.focus,
{
    lemma_focus_ring_cycle(s.focus);
}

/// Mode exclusivity: in a live `Normal` state, pressing `i` enters `Insert`;
/// in every reachable state, pressing `Escape` lands in `Normal` mode, and
/// pressing it again keeps `Normal`.
pub proof fn lemma_mode_exclusivity(s: App)
    requires
        wf(s),
    ensures
        (!s.should_exit && s.mode is Normal) ==> spec_transition(
            s,
            press(KeyCode::Char('i')),
        ).mode is Insert,
        spec_transition(s, press(KeyCode::Esc)).mode is Normal,
        spec_transition(spec_transition(s, press(KeyCode::Esc)), press(KeyCode::Esc)).mode
            is Normal,
{
}

/// Command suppression: while in `Insert` mode, no event moves focus or
/// raises the exit flag — in particular `q`, `Tab` and `Shift+Tab` are not
/// read as commands.
pub proof fn lemma_insert_suppresses_commands(s: App, e: KeyEvent)
    requires
        s.mode is Insert,
    ensures
        spec_transition(s, e).focus == s.focus,
        spec_transition(s, e).should_exit == s.should_exit,
{
}

/// Exit is terminal: once the exit flag is set, no event changes any field.
pub proof fn lemma_exit_terminal(s: App, e: KeyEvent)
    requires
        s.should_exit,
    ensures
        spec_transition(s, e) == s,
{
}

/// Every transition preserves well-formedness: starting from a state whose
/// exit flag was raised only from `Normal` mode, the successor state again
/// has that shape — so `wf` holds of every state reachable from the default.
pub proof fn lemma_wf_preserved(s: App, e: KeyEvent)
    requires
        wf(s),
    ensures
        wf(spec_transition(s, e)),
{
}

} // verus!
