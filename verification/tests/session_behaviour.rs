use tui_core::session::PumpConfig;
use tui_core::session::STOP_GRACE_POLLS;
use tui_core::session::STOP_LIMIT_POLLS;
use tui_core::session::StopDecision;
use tui_core::session::TermAction;
use tui_core::session::TermMode;
use tui_core::session::Tui;
use tui_core::session::apply_action;
use tui_core::session::apply_actions;
use tui_core::session::period_micros;
use tui_core::session::stop_poll;

#[test]
fn new_session_has_documented_defaults() {
    let t = Tui::new();
    assert_eq!(t.tick_rate, 4);
    assert_eq!(t.frame_rate, 60);
    assert!(!t.mouse);
    assert!(!t.paste);
    assert!(!t.entered);
    assert_eq!(t.epoch, 0);
    assert!(!t.cancel_requested);
}

#[test]
fn builders_configure_the_session() {
    let t = Tui::new().tick_rate(10).frame_rate(30).mouse(true).paste(true);
    assert_eq!(t.tick_rate, 10);
    assert_eq!(t.frame_rate, 30);
    assert!(t.mouse);
    assert!(t.paste);
    assert!(!t.entered);
}

#[test]
fn period_is_the_reciprocal_in_micros() {
    assert_eq!(period_micros(4), 250_000);
    assert_eq!(period_micros(60), 16_666);
    assert_eq!(period_micros(10), 100_000);
    assert_eq!(period_micros(1), 1_000_000);
}

#[test]
fn period_never_reaches_zero() {
    assert_eq!(period_micros(2_000_000), 1);
    assert_eq!(period_micros(u32::MAX), 1);
}

#[test]
fn start_uses_the_rates_configured_now() {
    let mut t = Tui::new().tick_rate(10).frame_rate(20);
    let cfg = t.start();
    assert_eq!(
        cfg,
        PumpConfig { tick_period_micros: 100_000, render_period_micros: 50_000 },
    );
    assert_eq!(t.epoch, 1);
    assert!(!t.cancel_requested);
}

#[test]
fn rate_change_takes_effect_on_the_next_start() {
    let mut t = Tui::new();
    let first = t.start();
    assert_eq!(first.tick_period_micros, 250_000);
    t = t.tick_rate(10);
    let second = t.start();
    assert_eq!(second.tick_period_micros, 100_000);
    assert_eq!(t.epoch, 2);
}

#[test]
fn enter_applies_base_modes_in_order() {
    let mut t = Tui::new();
    let (actions, cfg) = t.enter();
    assert_eq!(
        actions,
        vec![TermAction::EnableRawMode, TermAction::EnterAltScreen, TermAction::HideCursor],
    );
    assert_eq!(cfg.tick_period_micros, 250_000);
    assert_eq!(cfg.render_period_micros, 16_666);
    assert!(t.entered);
    assert_eq!(t.epoch, 1);
}

#[test]
fn enter_with_captures_enables_them_after_the_base_modes() {
    let mut t = Tui::new().mouse(true).paste(true);
    let (actions, _) = t.enter();
    assert_eq!(
        actions,
        vec![
            TermAction::EnableRawMode,
            TermAction::EnterAltScreen,
            TermAction::HideCursor,
            TermAction::EnableMouseCapture,
            TermAction::EnableBracketedPaste,
        ],
    );
}

#[test]
fn exit_restores_in_reverse_order() {
    let mut t = Tui::new().mouse(true).paste(true);
    let _ = t.enter();
    let actions = t.exit();
    assert_eq!(
        actions,
        vec![
            TermAction::Flush,
            TermAction::DisableBracketedPaste,
            TermAction::DisableMouseCapture,
            TermAction::LeaveAltScreen,
            TermAction::ShowCursor,
            TermAction::DisableRawMode,
        ],
    );
    assert!(!t.entered);
    assert!(t.cancel_requested);
}

#[test]
fn exit_when_never_entered_touches_no_mode() {
    let mut t = Tui::new();
    let actions = t.exit();
    assert!(actions.is_empty());
    assert!(t.cancel_requested);
}

#[test]
fn exit_twice_is_idempotent() {
    let mut t = Tui::new().mouse(true);
    let _ = t.enter();
    let first = t.exit();
    assert!(!first.is_empty());
    let second = t.exit();
    assert!(second.is_empty());
}

#[test]
fn mouse_capture_is_enabled_and_disabled_exactly_once() {
    let mut t = Tui::new().mouse(true);
    let (enter_actions, _) = t.enter();
    let exit_actions = t.exit();
    let enables = enter_actions
        .iter()
        .filter(|a| **a == TermAction::EnableMouseCapture)
        .count();
    let disables = exit_actions
        .iter()
        .filter(|a| **a == TermAction::DisableMouseCapture)
        .count();
    assert_eq!(enables, 1);
    assert_eq!(disables, 1);
}

#[test]
fn enter_then_exit_restores_the_terminal_mode() {
    let mut t = Tui::new().mouse(true).paste(true);
    let normal = TermMode::normal();
    let (enter_actions, _) = t.enter();
    let after_enter = apply_actions(normal, &enter_actions);
    assert!(after_enter.raw);
    assert!(after_enter.alternate);
    assert!(after_enter.cursor_hidden);
    assert!(after_enter.mouse_capture);
    assert!(after_enter.paste_capture);
    let exit_actions = t.exit();
    let after_exit = apply_actions(after_enter, &exit_actions);
    assert_eq!(after_exit, normal);
}

#[test]
fn flush_changes_no_mode() {
    let mode = TermMode { raw: true, alternate: true, cursor_hidden: true, mouse_capture: false, paste_capture: false };
    assert_eq!(apply_action(mode, TermAction::Flush), mode);
}

#[test]
fn cancel_signals_without_touching_modes() {
    let mut t = Tui::new();
    t.cancel();
    assert!(t.cancel_requested);
    assert!(!t.entered);
    assert_eq!(t.epoch, 0);
}

#[test]
fn stop_signals_cancellation() {
    let mut t = Tui::new();
    let _ = t.enter();
    assert!(!t.cancel_requested);
    t.stop();
    assert!(t.cancel_requested);
    assert!(t.entered);
}

#[test]
fn suspend_exits_and_resume_enters() {
    let mut t = Tui::new();
    let _ = t.enter();
    let actions = t.suspend();
    assert!(!t.entered);
    assert_eq!(actions.len(), 4);
    let (actions, cfg) = t.resume();
    assert!(t.entered);
    assert_eq!(actions.len(), 3);
    assert_eq!(cfg.tick_period_micros, 250_000);
}

#[test]
fn stop_waits_through_the_grace_period() {
    assert_eq!(stop_poll(0), StopDecision::Wait);
    assert_eq!(stop_poll(1), StopDecision::Wait);
    assert_eq!(stop_poll(STOP_GRACE_POLLS), StopDecision::Wait);
}

#[test]
fn stop_aborts_after_the_grace_period() {
    assert_eq!(stop_poll(STOP_GRACE_POLLS + 1), StopDecision::Abort);
    assert_eq!(stop_poll(STOP_LIMIT_POLLS), StopDecision::Abort);
}

#[test]
fn stop_gives_up_past_the_ceiling() {
    assert_eq!(stop_poll(STOP_LIMIT_POLLS + 1), StopDecision::GiveUp);
    assert_eq!(stop_poll(u64::MAX), StopDecision::GiveUp);
}

#[test]
fn stop_never_outlives_the_ceiling_even_when_wedged() {
    // A task that never finishes: the wait's own policy must end it.
    let mut polls: u64 = 0;
    loop {
        polls += 1;
        match stop_poll(polls) {
            StopDecision::Wait | StopDecision::Abort => continue,
            StopDecision::GiveUp => break,
        }
    }
    assert_eq!(polls, STOP_LIMIT_POLLS + 1);
}
