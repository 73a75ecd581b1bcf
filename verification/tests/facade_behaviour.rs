use tui_core::event::Event;
use tui_core::event::KeyCode;
use tui_core::event::KeyEvent;
use tui_core::event::KeyKind;
use tui_core::facade::TuiEnum;
use tui_core::inert::TEST_SURFACE_HEIGHT;
use tui_core::inert::TEST_SURFACE_WIDTH;
use tui_core::inert::TestTui;
use tui_core::session::TermAction;
use tui_core::session::Tui;

#[test]
fn inert_surface_has_fixed_dimensions() {
    let t = TestTui::new();
    assert_eq!(t.width, 80);
    assert_eq!(t.height, 25);
    assert_eq!(t.width, TEST_SURFACE_WIDTH);
    assert_eq!(t.height, TEST_SURFACE_HEIGHT);
}

#[test]
fn inert_next_is_always_tick() {
    let t = TestTui::new();
    for _ in 0..5 {
        assert_eq!(t.next(), Event::Tick);
    }
}

#[test]
fn facade_wraps_either_session() {
    let real: TuiEnum = Tui::new().into();
    assert!(matches!(real, TuiEnum::Crossterm(_)));
    let inert: TuiEnum = TestTui::new().into();
    assert!(matches!(inert, TuiEnum::Test(_)));
}

#[test]
fn facade_routes_enter_and_exit_to_the_real_session() {
    let mut facade = TuiEnum::from(Tui::new().mouse(true));
    let (actions, cfg) = facade.enter();
    assert_eq!(
        actions,
        vec![
            TermAction::EnableRawMode,
            TermAction::EnterAltScreen,
            TermAction::HideCursor,
            TermAction::EnableMouseCapture,
        ],
    );
    assert!(cfg.is_some());
    let actions = facade.exit();
    assert_eq!(actions.len(), 5);
    let actions = facade.exit();
    assert!(actions.is_empty());
}

#[test]
fn facade_enter_and_exit_are_no_ops_for_the_inert_session() {
    let mut facade = TuiEnum::from(TestTui::new());
    let (actions, cfg) = facade.enter();
    assert!(actions.is_empty());
    assert!(cfg.is_none());
    let actions = facade.exit();
    assert!(actions.is_empty());
}

#[test]
fn a_key_code_converts_to_a_fresh_press() {
    let e = Event::from(KeyCode::Esc);
    assert_eq!(
        e,
        Event::Key(KeyEvent { code: KeyCode::Esc, modifiers: 0, kind: KeyKind::Press, state: 0 }),
    );
}

#[test]
fn a_char_converts_to_a_fresh_press_of_its_key() {
    let e = Event::from('q');
    assert_eq!(
        e,
        Event::Key(KeyEvent {
            code: KeyCode::Char('q'),
            modifiers: 0,
            kind: KeyKind::Press,
            state: 0,
        }),
    );
}
