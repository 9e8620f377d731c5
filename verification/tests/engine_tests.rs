use panpan::engine::get_screen_size;
use panpan::engine::render;
use panpan::engine::resize;
use panpan::engine::set_screen_size;
use panpan::engine::touch_up;
use panpan::engine::Engine;
use panpan::engine::EngineEvent;
use panpan::engine::RenderCommand;
use panpan::engine::__internal_resize;
use panpan::input::Key;
use panpan::input::TouchPhase;

#[test]
fn screen_size_round_trip() {
    let mut eng = Engine::new(true);
    assert_eq!(get_screen_size(&eng), (0, 0));
    set_screen_size(&mut eng, 640, 480);
    assert_eq!(get_screen_size(&eng), (640, 480));
}

#[test]
fn resize_records_the_screen_size() {
    let mut eng = Engine::new(false);
    resize(&mut eng, 1024, 768);
    assert_eq!(get_screen_size(&eng), (1024, 768));
}

#[test]
fn render_issues_one_clear_per_frame_when_ready() {
    let mut eng = Engine::new(true);
    render(&mut eng);
    render(&mut eng);
    assert_eq!(eng.commands, vec![RenderCommand::Clear, RenderCommand::Clear]);
}

#[test]
fn render_without_backend_issues_nothing() {
    let mut eng = Engine::new(false);
    render(&mut eng);
    assert!(eng.commands.is_empty());
}

#[test]
fn touch_up_is_forwarded_only_with_handlers() {
    let mut eng = Engine::new(true);
    touch_up(&mut eng, 3);
    assert!(eng.events.is_empty());
    eng.install_touch_handlers();
    touch_up(&mut eng, 4);
    assert_eq!(eng.events, vec![EngineEvent::TouchUp { id: 4 }]);
}

#[test]
fn internal_resize_sets_the_viewport_when_ready() {
    let mut eng = Engine::new(true);
    __internal_resize(&mut eng, 320, 200);
    assert_eq!((eng.viewport_width, eng.viewport_height), (320, 200));

    let mut cold = Engine::new(false);
    __internal_resize(&mut cold, 320, 200);
    assert_eq!((cold.viewport_width, cold.viewport_height), (800, 600));
}

#[test]
fn input_vocabulary_is_comparable() {
    assert_eq!(TouchPhase::Started, TouchPhase::Started);
    assert_ne!(TouchPhase::Started, TouchPhase::Ended);
    assert_eq!(Key::Space, Key::Space);
    assert_ne!(Key::W, Key::Unknown);
}
