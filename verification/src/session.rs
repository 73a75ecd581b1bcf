//! The terminal session: lifecycle state, the ordered terminal mode
//! operations that `enter` and `exit` perform, and the bounded shutdown
//! policy for the background pump.
//!
//! The session decides; the host that owns the real terminal and the task
//! scheduler performs. `enter` and `exit` return the exact ordered list of
//! [`TermAction`]s to run against the terminal, together with the state
//! transition; [`apply_all`] is the model of what those actions do to the
//! terminal's mode, which makes the restoration guarantee — the mode a
//! session leaves behind is the mode it found — a proved statement rather
//! than a convention.

use vstd::prelude::*;

verus! {

/// One terminal mode operation, performed on the caller's thread by whoever
/// owns the real terminal handle.
#[derive(Clone, Copy, Debug, PartialEq, Eq)]
pub enum TermAction {
    EnableRawMode,
    EnterAltScreen,
    HideCursor,
    EnableMouseCapture,
    EnableBracketedPaste,
    Flush,
    DisableBracketedPaste,
    DisableMouseCapture,
    LeaveAltScreen,
    ShowCursor,
    DisableRawMode,
}

/// The terminal's special display mode, as the session's actions change it.
#[derive(Clone, Copy, Debug, PartialEq, Eq, Structural)]
pub struct TermMode {
    pub raw: bool,
    pub alternate: bool,
    pub cursor_hidden: bool,
    pub mouse_capture: bool,
    pub paste_capture: bool,
}

/// The terminal's ordinary mode: nothing special enabled, cursor shown.
pub open spec fn normal_mode() -> TermMode {
    TermMode {
        raw: false,
        alternate: false,
        cursor_hidden: false,
        mouse_capture: false,
        paste_capture: false,
    }
}

impl TermMode {
    /// The terminal's ordinary mode: nothing special enabled, cursor shown.
    pub fn normal() -> (m: Self)
        ensures
            m == normal_mode(),
    {
        TermMode {
            raw: false,
            alternate: false,
            cursor_hidden: false,
            mouse_capture: false,
            paste_capture: false,
        }
    }
}

/// What one action does to the terminal's mode. `Flush` only pushes pending
/// output out and changes no mode.
pub open spec fn apply_spec(m: TermMode, a: TermAction) -> TermMode {
    match a {
        TermAction::EnableRawMode => TermMode { raw: true, ..m },
        TermAction::EnterAltScreen => TermMode { alternate: true, ..m },
        TermAction::HideCursor => TermMode { cursor_hidden: true, ..m },
        TermAction::EnableMouseCapture => TermMode { mouse_capture: true, ..m },
        TermAction::EnableBracketedPaste => TermMode { paste_capture: true, ..m },
        TermAction::Flush => m,
        TermAction::DisableBracketedPaste => TermMode { paste_capture: false, ..m },
        TermAction::DisableMouseCapture => TermMode { mouse_capture: false, ..m },
        TermAction::LeaveAltScreen => TermMode { alternate: false, ..m },
        TermAction::ShowCursor => TermMode { cursor_hidden: false, ..m },
        TermAction::DisableRawMode => TermMode { raw: false, ..m },
    }
}

/// What a whole list of actions, performed in order, does to the mode.
pub open spec fn apply_all(m: TermMode, actions: Seq<TermAction>) -> TermMode
    decreases actions.len(),
{
    if actions.len() == 0 {
        m
    } else {
        apply_all(apply_spec(m, actions[0]), actions.drop_first())
    }
}

/// Applies one action to a mode value, exactly as [`apply_spec`] says.
pub fn apply_action(m: TermMode, a: TermAction) -> (r: TermMode)
    ensures
        r == apply_spec(m, a),
{
    match a {
        TermAction::EnableRawMode => TermMode { raw: true, ..m },
        TermAction::EnterAltScreen => TermMode { alternate: true, ..m },
        TermAction::HideCursor => TermMode { cursor_hidden: true, ..m },
        TermAction::EnableMouseCapture => TermMode { mouse_capture: true, ..m },
        TermAction::EnableBracketedPaste => TermMode { paste_capture: true, ..m },
        TermAction::Flush => m,
        TermAction::DisableBracketedPaste => TermMode { paste_capture: false, ..m },
        TermAction::DisableMouseCapture => TermMode { mouse_capture: false, ..m },
        TermAction::LeaveAltScreen => TermMode { alternate: false, ..m },
        TermAction::ShowCursor => TermMode { cursor_hidden: false, ..m },
        TermAction::DisableRawMode => TermMode { raw: false, ..m },
    }
}

proof fn lemma_apply_all_snoc(m: TermMode, s: Seq<TermAction>, a: TermAction)
    ensures
        apply_all(m, s.push(a)) == apply_spec(apply_all(m, s), a),
    decreases s.len(),
{
    reveal_with_fuel(apply_all, 3);
    if s.len() == 0 {
        assert(s.push(a)[0] == a);
        assert(s.push(a).drop_first() =~= Seq::<TermAction>::empty());
    } else {
        assert(s.push(a)[0] == s[0]);
        assert(s.push(a).drop_first() =~= s.drop_first().push(a));
        lemma_apply_all_snoc(apply_spec(m, s[0]), s.drop_first(), a);
    }
}

/// Applies a list of actions to a mode value, in order, exactly as
/// [`apply_all`] says.
pub fn apply_actions(m: TermMode, actions: &Vec<TermAction>) -> (r: TermMode)
    ensures
        r == apply_all(m, actions@),
{
    let mut r = m;
    let mut i: usize = 0;
    while i < actions.len()
        invariant
            i <= actions@.len(),
            r == apply_all(m, actions@.take(i as int)),
        decreases actions@.len() - i,
    {
        r = apply_action(r, actions[i]);
        proof {
            assert(actions@.take(i + 1) =~= actions@.take(i as int).push(actions@[i as int]));
            lemma_apply_all_snoc(m, actions@.take(i as int), actions@[i as int]);
        }
        i = i + 1;
    }
    proof {
        assert(actions@.take(i as int) =~= actions@);
    }
    r
}

/// The ordered terminal operations `enter` performs: raw mode on, alternate
/// screen, cursor hidden, then the optional captures, mouse before paste.
pub open spec fn enter_actions_spec(mouse: bool, paste: bool) -> Seq<TermAction> {
    seq![TermAction::EnableRawMode, TermAction::EnterAltScreen, TermAction::HideCursor] + (if mouse {
        seq![TermAction::EnableMouseCapture]
    } else {
        Seq::empty()
    }) + (if paste {
        seq![TermAction::EnableBracketedPaste]
    } else {
        Seq::empty()
    })
}

/// The ordered terminal operations `exit` performs when the session is
/// active: flush pending output, undo the captures in reverse order, leave
/// the alternate screen, show the cursor, raw mode off. When the session is
/// not active, none at all.
pub open spec fn exit_actions_spec(mouse: bool, paste: bool, active: bool) -> Seq<TermAction> {
    if active {
        seq![TermAction::Flush] + (if paste {
            seq![TermAction::DisableBracketedPaste]
        } else {
            Seq::empty()
        }) + (if mouse {
            seq![TermAction::DisableMouseCapture]
        } else {
            Seq::empty()
        }) + seq![TermAction::LeaveAltScreen, TermAction::ShowCursor, TermAction::DisableRawMode]
    } else {
        Seq::empty()
    }
}

/// The timer periods one pump run is started with, in microseconds.
#[derive(Clone, Copy, Debug, PartialEq, Eq, Structural)]
pub struct PumpConfig {
    pub tick_period_micros: u64,
    pub render_period_micros: u64,
}

/// The period, in whole microseconds, of a timer that fires `rate` times per
/// second — at least one microsecond, so a timer built from it is never
/// zero-period.
pub open spec fn period_micros_spec(rate: u32) -> u64
    recommends
        rate > 0,
{
    if 1_000_000u64 / (rate as u64) == 0 {
        1
    } else {
        1_000_000u64 / (rate as u64)
    }
}

/// Computes the timer period for a rate, exactly as [`period_micros_spec`]
/// says.
pub fn period_micros(rate: u32) -> (p: u64)
    requires
        rate > 0,
    ensures
        p == period_micros_spec(rate),
        p >= 1,
{
    let p = 1_000_000u64 / (rate as u64);
    if p == 0 {
        1
    } else {
        p
    }
}

/// The session that owns the terminal's special display mode and the
/// background event pump. Rates are events per second; `entered` is whether
/// the terminal is currently in the session's special mode; `epoch` counts
/// pump starts, each with a cancellation scope of its own; and
/// `cancel_requested` is whether the current scope has been signalled.
pub struct Tui {
    pub tick_rate: u32,
    pub frame_rate: u32,
    pub mouse: bool,
    pub paste: bool,
    pub entered: bool,
    pub epoch: u64,
    pub cancel_requested: bool,
}

/// Both rates are positive, as every live session keeps them.
pub open spec fn wf(t: Tui) -> bool {
    t.tick_rate > 0 && t.frame_rate > 0
}

/// The session after a pump start: a new epoch with a fresh, unsignalled
/// cancellation scope; everything else unchanged.
pub open spec fn started_state(t: Tui) -> Tui {
    Tui { epoch: (t.epoch + 1) as u64, cancel_requested: false, ..t }
}

/// The session after `enter`: active, with a freshly started pump.
pub open spec fn entered_state(t: Tui) -> Tui {
    Tui { entered: true, ..started_state(t) }
}

/// The session after `exit`: inactive, with the current pump's cancellation
/// scope signalled.
pub open spec fn exited_state(t: Tui) -> Tui {
    Tui { entered: false, cancel_requested: true, ..t }
}

impl Tui {
    /// A fresh session: four logic ticks and sixty rendered frames per
    /// second, no captures, not yet entered, nothing to cancel.
    pub fn new() -> (t: Self)
        ensures
            t == (Tui {
                tick_rate: 4u32,
                frame_rate: 60u32,
                mouse: false,
                paste: false,
                entered: false,
                epoch: 0u64,
                cancel_requested: false,
            }),
            wf(t),
    {
        Tui {
            tick_rate: 4,
            frame_rate: 60,
            mouse: false,
            paste: false,
            entered: false,
            epoch: 0,
            cancel_requested: false,
        }
    }

    /// Sets the logic tick rate; it takes effect on the next pump start.
    pub fn tick_rate(self, tick_rate: u32) -> (t: Self)
        requires
            tick_rate > 0,
        ensures
            t == (Tui { tick_rate, ..self }),
    {
        Tui { tick_rate, ..self }
    }

    /// Sets the render rate; it takes effect on the next pump start.
    pub fn frame_rate(self, frame_rate: u32) -> (t: Self)
        requires
            frame_rate > 0,
        ensures
            t == (Tui { frame_rate, ..self }),
    {
        Tui { frame_rate, ..self }
    }

    /// Sets whether `enter` also captures mouse events; it takes effect on
    /// the next `enter` or `exit`.
    pub fn mouse(self, mouse: bool) -> (t: Self)
        ensures
            t == (Tui { mouse, ..self }),
    {
        Tui { mouse, ..self }
    }

    /// Sets whether `enter` also captures bracketed paste; it takes effect
    /// on the next `enter` or `exit`.
    pub fn paste(self, paste: bool) -> (t: Self)
        ensures
            t == (Tui { paste, ..self }),
    {
        Tui { paste, ..self }
    }

    /// Signals the current pump's cancellation scope; terminal modes are
    /// untouched.
    pub fn cancel(&mut self)
        ensures
            *final(self) == (Tui { cancel_requested: true, ..*old(self) }),
    {
        self.cancel_requested = true;
    }

    /// Stops the current pump: signals its cancellation scope, after which
    /// the host waits for the task as [`stop_poll`] directs, never longer
    /// than the bounded ceiling.
    pub fn stop(&mut self)
        ensures
            *final(self) == (Tui { cancel_requested: true, ..*old(self) }),
    {
        self.cancel();
    }

    /// Starts a new pump run: abandons the previous run by replacing its
    /// cancellation scope with a fresh one, and yields the timer periods —
    /// taken from the rates as configured now — that the new run is spawned
    /// with. The new pump emits `Init` before anything else.
    pub fn start(&mut self) -> (cfg: PumpConfig)
        requires
            wf(*old(self)),
            old(self).epoch < u64::MAX,
        ensures
            *final(self) == started_state(*old(self)),
            cfg.tick_period_micros == period_micros_spec(old(self).tick_rate),
            cfg.render_period_micros == period_micros_spec(old(self).frame_rate),
    {
        self.epoch = self.epoch + 1;
        self.cancel_requested = false;
        PumpConfig {
            tick_period_micros: period_micros(self.tick_rate),
            render_period_micros: period_micros(self.frame_rate),
        }
    }

    /// Enters the session: yields the ordered terminal operations to
    /// perform — raw mode, alternate screen, hidden cursor, then the
    /// enabled captures — and the configuration of the pump run to start
    /// after them. Safe when already entered: the same modes are re-applied
    /// and a fresh pump replaces the running one.
    pub fn enter(&mut self) -> (r: (Vec<TermAction>, PumpConfig))
        requires
            wf(*old(self)),
            old(self).epoch < u64::MAX,
        ensures
            *final(self) == entered_state(*old(self)),
            r.0@ == enter_actions_spec(old(self).mouse, old(self).paste),
            r.1.tick_period_micros == period_micros_spec(old(self).tick_rate),
            r.1.render_period_micros == period_micros_spec(old(self).frame_rate),
    {
        let mut actions: Vec<TermAction> = Vec::new();
        actions.push(TermAction::EnableRawMode);
        actions.push(TermAction::EnterAltScreen);
        actions.push(TermAction::HideCursor);
        if self.mouse {
            actions.push(TermAction::EnableMouseCapture);
        }
        if self.paste {
            actions.push(TermAction::EnableBracketedPaste);
        }
        proof {
            assert(actions@ =~= enter_actions_spec(self.mouse, self.paste));
        }
        let cfg = self.start();
        self.entered = true;
        (actions, cfg)
    }

    /// Exits the session: stops the pump, and yields the ordered terminal
    /// operations that restore the terminal — exactly none when the session
    /// is not active, so exiting a never-entered or already-exited session
    /// touches no terminal mode and still succeeds.
    pub fn exit(&mut self) -> (actions: Vec<TermAction>)
        ensures
            *final(self) == exited_state(*old(self)),
            actions@ == exit_actions_spec(old(self).mouse, old(self).paste, old(self).entered),
    {
        self.stop();
        let mut actions: Vec<TermAction> = Vec::new();
        if self.entered {
            actions.push(TermAction::Flush);
            if self.paste {
                actions.push(TermAction::DisableBracketedPaste);
            }
            if self.mouse {
                actions.push(TermAction::DisableMouseCapture);
            }
            actions.push(TermAction::LeaveAltScreen);
            actions.push(TermAction::ShowCursor);
            actions.push(TermAction::DisableRawMode);
        }
        proof {
            assert(actions@ =~= exit_actions_spec(self.mouse, self.paste, self.entered));
        }
        self.entered = false;
        actions
    }

    /// Suspends the session: exits exactly as [`Tui::exit`] does, after
    /// which the host yields the terminal to the controlling shell by
    /// raising its stop-self signal.
    pub fn suspend(&mut self) -> (actions: Vec<TermAction>)
        ensures
            *final(self) == exited_state(*old(self)),
            actions@ == exit_actions_spec(old(self).mouse, old(self).paste, old(self).entered),
    {
        self.exit()
    }

    /// Resumes the session after a suspend: enters exactly as
    /// [`Tui::enter`] does.
    pub fn resume(&mut self) -> (r: (Vec<TermAction>, PumpConfig))
        requires
            wf(*old(self)),
            old(self).epoch < u64::MAX,
        ensures
            *final(self) == entered_state(*old(self)),
            r.0@ == enter_actions_spec(old(self).mouse, old(self).paste),
            r.1.tick_period_micros == period_micros_spec(old(self).tick_rate),
            r.1.render_period_micros == period_micros_spec(old(self).frame_rate),
    {
        self.enter()
    }
}

/// How many grace polls the pump's shutdown waits before forcing an abort.
pub const STOP_GRACE_POLLS: u64 = 50;

/// The absolute poll ceiling of the pump's shutdown, after which it gives
/// up and reports the task as stuck rather than wait longer.
pub const STOP_LIMIT_POLLS: u64 = 100;

/// How long the host sleeps between two shutdown polls, in milliseconds.
pub const STOP_POLL_INTERVAL_MILLIS: u64 = 1;

/// What the shutdown wait does after a poll finds the pump task still
/// running.
#[derive(Clone, Copy, Debug, PartialEq, Eq)]
pub enum StopDecision {
    /// Keep waiting for the task to finish on its own.
    Wait,
    /// The grace period is over: force-abort the task, and keep waiting for
    /// the abort to take effect.
    Abort,
    /// The ceiling is reached: give up, report the task as stuck, and
    /// return anyway.
    GiveUp,
}

/// The shutdown wait policy: within the grace period, wait; past it, abort;
/// past the ceiling, give up — so the wait never outlives the ceiling, even
/// for a wedged task.
pub open spec fn stop_poll_spec(polls: u64) -> StopDecision {
    if polls > STOP_LIMIT_POLLS {
        StopDecision::GiveUp
    } else if polls > STOP_GRACE_POLLS {
        StopDecision::Abort
    } else {
        StopDecision::Wait
    }
}

/// Decides what the shutdown wait does after its `polls`-th unsuccessful
/// poll, exactly as [`stop_poll_spec`] says.
pub fn stop_poll(polls: u64) -> (d: StopDecision)
    ensures
        d == stop_poll_spec(polls),
{
    if polls > STOP_LIMIT_POLLS {
        StopDecision::GiveUp
    } else if polls > STOP_GRACE_POLLS {
        StopDecision::Abort
    } else {
        StopDecision::Wait
    }
}

/// The shutdown wait is bounded: every poll past the ceiling decides to
/// give up, so a wait that follows the policy makes at most one poll more
/// than the ceiling allows, however the pump task behaves; and it only
/// keeps waiting without aborting within the grace period.
pub proof fn lemma_stop_is_bounded(polls: u64)
    ensures
        stop_poll_spec(polls) == StopDecision::GiveUp <==> polls > STOP_LIMIT_POLLS,
        stop_poll_spec(polls) == StopDecision::Wait <==> polls <= STOP_GRACE_POLLS,
        stop_poll_spec(polls) == StopDecision::Abort <==> STOP_GRACE_POLLS < polls
            <= STOP_LIMIT_POLLS,
{
}

/// Exiting a session that is not active performs no terminal operation.
pub proof fn lemma_exit_inactive_is_noop(mouse: bool, paste: bool)
    ensures
        exit_actions_spec(mouse, paste, false) =~= Seq::<TermAction>::empty(),
{
}

/// Exit is idempotent: any exit leaves the session inactive, so a second
/// exit in a row performs no terminal operation at all.
pub proof fn lemma_exit_is_idempotent(t: Tui)
    ensures
        !exited_state(t).entered,
        exit_actions_spec(
            exited_state(t).mouse,
            exited_state(t).paste,
            exited_state(t).entered,
        ) =~= Seq::<TermAction>::empty(),
{
}

/// The counted occurrences of one action in a list.
pub open spec fn action_count(s: Seq<TermAction>, a: TermAction) -> nat
    decreases s.len(),
{
    if s.len() == 0 {
        0
    } else {
        (if s[0] == a {
            1nat
        } else {
            0nat
        }) + action_count(s.drop_first(), a)
    }
}

/// The captures are balanced: with a capture configured on, entering
/// enables it exactly once and an active exit disables it exactly once;
/// with it off, neither side ever touches it.
pub proof fn lemma_captures_balanced(mouse: bool, paste: bool)
    ensures
        action_count(enter_actions_spec(mouse, paste), TermAction::EnableMouseCapture) == (
        if mouse {
            1nat
        } else {
            0nat
        }),
        action_count(exit_actions_spec(mouse, paste, true), TermAction::DisableMouseCapture) == (
        if mouse {
            1nat
        } else {
            0nat
        }),
        action_count(enter_actions_spec(mouse, paste), TermAction::EnableBracketedPaste) == (
        if paste {
            1nat
        } else {
            0nat
        }),
        action_count(exit_actions_spec(mouse, paste, true), TermAction::DisableBracketedPaste) == (
        if paste {
            1nat
        } else {
            0nat
        }),
{
    reveal_with_fuel(action_count, 8);
    if mouse {
        if paste {
            assert(enter_actions_spec(mouse, paste) =~= seq![
                TermAction::EnableRawMode,
                TermAction::EnterAltScreen,
                TermAction::HideCursor,
                TermAction::EnableMouseCapture,
                TermAction::EnableBracketedPaste,
            ]);
            assert(exit_actions_spec(mouse, paste, true) =~= seq![
                TermAction::Flush,
                TermAction::DisableBracketedPaste,
                TermAction::DisableMouseCapture,
                TermAction::LeaveAltScreen,
                TermAction::ShowCursor,
                TermAction::DisableRawMode,
            ]);
        } else {
            assert(enter_actions_spec(mouse, paste) =~= seq![
                TermAction::EnableRawMode,
                TermAction::EnterAltScreen,
                TermAction::HideCursor,
                TermAction::EnableMouseCapture,
            ]);
            assert(exit_actions_spec(mouse, paste, true) =~= seq![
                TermAction::Flush,
                TermAction::DisableMouseCapture,
                TermAction::LeaveAltScreen,
                TermAction::ShowCursor,
                TermAction::DisableRawMode,
            ]);
        }
    } else {
        if paste {
            assert(enter_actions_spec(mouse, paste) =~= seq![
                TermAction::EnableRawMode,
                TermAction::EnterAltScreen,
                TermAction::HideCursor,
                TermAction::EnableBracketedPaste,
            ]);
            assert(exit_actions_spec(mouse, paste, true) =~= seq![
                TermAction::Flush,
                TermAction::DisableBracketedPaste,
                TermAction::LeaveAltScreen,
                TermAction::ShowCursor,
                TermAction::DisableRawMode,
            ]);
        } else {
            assert(enter_actions_spec(mouse, paste) =~= seq![
                TermAction::EnableRawMode,
                TermAction::EnterAltScreen,
                TermAction::HideCursor,
            ]);
            assert(exit_actions_spec(mouse, paste, true) =~= seq![
                TermAction::Flush,
                TermAction::LeaveAltScreen,
                TermAction::ShowCursor,
                TermAction::DisableRawMode,
            ]);
        }
    }
}

/// Entering turns raw mode on, and a terminal in its ordinary mode that one
/// session enters and then exits is restored exactly to its ordinary mode —
/// whatever captures were configured, the session leaves the terminal as it
/// found it.
pub proof fn lemma_enter_exit_restores(mouse: bool, paste: bool)
    ensures
        apply_all(normal_mode(), enter_actions_spec(mouse, paste)).raw,
        apply_all(
            apply_all(normal_mode(), enter_actions_spec(mouse, paste)),
            exit_actions_spec(mouse, paste, true),
        ) == normal_mode(),
{
    reveal_with_fuel(apply_all, 8);
    if mouse {
        if paste {
            assert(enter_actions_spec(mouse, paste) =~= seq![
                TermAction::EnableRawMode,
                TermAction::EnterAltScreen,
                TermAction::HideCursor,
                TermAction::EnableMouseCapture,
                TermAction::EnableBracketedPaste,
            ]);
            assert(exit_actions_spec(mouse, paste, true) =~= seq![
                TermAction::Flush,
                TermAction::DisableBracketedPaste,
                TermAction::DisableMouseCapture,
                TermAction::LeaveAltScreen,
                TermAction::ShowCursor,
                TermAction::DisableRawMode,
            ]);
        } else {
            assert(enter_actions_spec(mouse, paste) =~= seq![
                TermAction::EnableRawMode,
                TermAction::EnterAltScreen,
                TermAction::HideCursor,
                TermAction::EnableMouseCapture,
            ]);
            assert(exit_actions_spec(mouse, paste, true) =~= seq![
                TermAction::Flush,
                TermAction::DisableMouseCapture,
                TermAction::LeaveAltScreen,
                TermAction::ShowCursor,
                TermAction::DisableRawMode,
            ]);
        }
    } else {
        if paste {
            assert(enter_actions_spec(mouse, paste) =~= seq![
                TermAction::EnableRawMode,
                TermAction::EnterAltScreen,
                TermAction::HideCursor,
                TermAction::EnableBracketedPaste,
            ]);
            assert(exit_actions_spec(mouse, paste, true) =~= seq![
                TermAction::Flush,
                TermAction::DisableBracketedPaste,
                TermAction::LeaveAltScreen,
                TermAction::ShowCursor,
                TermAction::DisableRawMode,
            ]);
        } else {
            assert(enter_actions_spec(mouse, paste) =~= seq![
                TermAction::EnableRawMode,
                TermAction::EnterAltScreen,
                TermAction::HideCursor,
            ]);
            assert(exit_actions_spec(mouse, paste, true) =~= seq![
                TermAction::Flush,
                TermAction::LeaveAltScreen,
                TermAction::ShowCursor,
                TermAction::DisableRawMode,
            ]);
        }
    }
}

} // verus!
