use tui_core::event::Event;
use tui_core::event::KeyCode;
use tui_core::event::KeyEvent;
use tui_core::event::KeyKind;
use tui_core::event::MouseButton;
use tui_core::event::MouseEvent;
use tui_core::event::MouseEventKind;
use tui_core::event::RawEvent;
use tui_core::pump::Polled;
use tui_core::pump::PumpAction;
use tui_core::pump::PumpWake;
use tui_core::pump::pump_run;
use tui_core::pump::pump_step;
use tui_core::pump::translate;

fn press(c: char) -> KeyEvent {
    KeyEvent { code: KeyCode::Char(c), modifiers: 0, kind: KeyKind::Press, state: 0 }
}

#[test]
fn key_press_is_forwarded() {
    let k = press('a');
    assert_eq!(translate(&RawEvent::Key(k)), Some(Event::Key(k)));
}

#[test]
fn key_release_is_suppressed() {
    let k = KeyEvent { code: KeyCode::Esc, modifiers: 0, kind: KeyKind::Release, state: 0 };
    assert_eq!(translate(&RawEvent::Key(k)), None);
}

#[test]
fn key_repeat_is_suppressed() {
    let k = KeyEvent { code: KeyCode::Enter, modifiers: 0, kind: KeyKind::Repeat, state: 0 };
    assert_eq!(translate(&RawEvent::Key(k)), None);
}

#[test]
fn mouse_event_is_forwarded() {
    let m = MouseEvent {
        kind: MouseEventKind::Down(MouseButton::Left),
        column: 3,
        row: 7,
        modifiers: 0,
    };
    assert_eq!(translate(&RawEvent::Mouse(m)), Some(Event::Mouse(m)));
}

#[test]
fn resize_is_forwarded() {
    assert_eq!(translate(&RawEvent::Resize(120, 40)), Some(Event::Resize(120, 40)));
}

#[test]
fn focus_changes_are_forwarded() {
    assert_eq!(translate(&RawEvent::FocusGained), Some(Event::FocusGained));
    assert_eq!(translate(&RawEvent::FocusLost), Some(Event::FocusLost));
}

#[test]
fn paste_is_forwarded() {
    let text = String::from("hello");
    assert_eq!(translate(&RawEvent::Paste(text.clone())), Some(Event::Paste(text)));
}

#[test]
fn cancellation_stops_the_pump() {
    assert_eq!(pump_step(&PumpWake::Cancelled), PumpAction::Stop);
}

#[test]
fn input_failure_becomes_an_error_event() {
    assert_eq!(pump_step(&PumpWake::Input(Polled::Failed)), PumpAction::Emit(Event::Error));
}

#[test]
fn end_of_stream_is_tolerated() {
    assert_eq!(pump_step(&PumpWake::Input(Polled::Closed)), PumpAction::Continue);
}

#[test]
fn timers_emit_their_events() {
    assert_eq!(pump_step(&PumpWake::TickElapsed), PumpAction::Emit(Event::Tick));
    assert_eq!(pump_step(&PumpWake::RenderElapsed), PumpAction::Emit(Event::Render));
}

#[test]
fn init_is_first_even_without_wakes() {
    let out = pump_run(&Vec::new());
    assert_eq!(out, vec![Event::Init]);
}

#[test]
fn init_is_first_before_any_timer_event() {
    let out = pump_run(&vec![PumpWake::TickElapsed, PumpWake::RenderElapsed]);
    assert_eq!(out, vec![Event::Init, Event::Tick, Event::Render]);
}

#[test]
fn idle_run_sees_init_then_only_ticks_and_renders() {
    let wakes = vec![
        PumpWake::TickElapsed,
        PumpWake::RenderElapsed,
        PumpWake::TickElapsed,
        PumpWake::TickElapsed,
        PumpWake::RenderElapsed,
    ];
    let out = pump_run(&wakes);
    assert_eq!(out.len(), 6);
    assert_eq!(out[0], Event::Init);
    for e in &out[1..] {
        assert!(matches!(e, Event::Tick | Event::Render));
    }
}

#[test]
fn one_input_failure_yields_one_error_and_ticks_go_on() {
    let wakes = vec![
        PumpWake::TickElapsed,
        PumpWake::Input(Polled::Failed),
        PumpWake::TickElapsed,
    ];
    let out = pump_run(&wakes);
    assert_eq!(out, vec![Event::Init, Event::Tick, Event::Error, Event::Tick]);
    assert_eq!(out.iter().filter(|e| **e == Event::Error).count(), 1);
}

#[test]
fn nothing_is_emitted_after_cancellation() {
    let wakes = vec![
        PumpWake::TickElapsed,
        PumpWake::Cancelled,
        PumpWake::TickElapsed,
        PumpWake::Input(Polled::Item(RawEvent::Key(press('q')))),
    ];
    let out = pump_run(&wakes);
    assert_eq!(out, vec![Event::Init, Event::Tick]);
}

#[test]
fn non_press_keys_never_appear_downstream() {
    let rel = KeyEvent { code: KeyCode::Char('x'), modifiers: 0, kind: KeyKind::Release, state: 0 };
    let rep = KeyEvent { code: KeyCode::Char('x'), modifiers: 0, kind: KeyKind::Repeat, state: 0 };
    let wakes = vec![
        PumpWake::Input(Polled::Item(RawEvent::Key(rel))),
        PumpWake::Input(Polled::Item(RawEvent::Key(rep))),
        PumpWake::Input(Polled::Item(RawEvent::Key(press('x')))),
    ];
    let out = pump_run(&wakes);
    assert_eq!(out, vec![Event::Init, Event::Key(press('x'))]);
}
