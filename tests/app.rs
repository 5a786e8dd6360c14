use miye::input::{KeyCode, KeyState, Movement};
use miye::{Action, App, WindowEvent};

#[test]
fn events_are_rejected_before_initialization() {
    let app: App<u32> = App::new();
    assert!(app.needs_context());
    assert_eq!(app.window_event(WindowEvent::RedrawRequested), Action::Ignore);
    assert_eq!(app.window_event(WindowEvent::CloseRequested), Action::Ignore);
    assert_eq!(app.window_event(WindowEvent::Resized { width: 4, height: 3 }), Action::Ignore);
}

#[test]
fn window_ready_initializes_once() {
    let mut app: App<u32> = App::new();
    app.resumed(7);
    assert!(!app.needs_context());
    app.resumed(9);
    assert!(matches!(app, App::Initialized(7)));
}

#[test]
fn events_map_to_actions_once_initialized() {
    let mut app: App<u32> = App::new();
    app.resumed(1);
    assert_eq!(app.window_event(WindowEvent::CloseRequested), Action::Exit);
    assert_eq!(app.window_event(WindowEvent::RedrawRequested), Action::Redraw);
    assert_eq!(
        app.window_event(WindowEvent::Resized { width: 800, height: 0 }),
        Action::Resize { width: 800, height: 0 }
    );
    assert_eq!(
        app.window_event(WindowEvent::KeyboardInput { code: KeyCode::KeyE, state: KeyState::Pressed }),
        Action::Move(Movement::Up)
    );
    assert_eq!(
        app.window_event(WindowEvent::KeyboardInput { code: KeyCode::KeyE, state: KeyState::Released }),
        Action::Ignore
    );
    assert_eq!(app.window_event(WindowEvent::Other), Action::Ignore);
}
