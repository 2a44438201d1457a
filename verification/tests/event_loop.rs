use catfood_bar::bars::Rect;
use catfood_bar::click::ClickTarget;
use catfood_bar::component_manager::{ComponentManager, Reading};
use catfood_bar::components::windows::WindowInfo;
use catfood_bar::components::ConfigurableComponentRegistry;
use catfood_bar::config::ConfigError;
use catfood_bar::event_loop::{
    is_reload_trigger, App, Event, KeyCode, KeyEvent, KeyEventKind, KeyModifiers, MouseButton,
    MouseEvent, MouseEventKind, WatchEventKind,
};
use catfood_bar::lua_component::LuaComponentRegistry;

fn app(text: &str) -> App {
    App::new(
        ComponentManager::from_text(
            ConfigurableComponentRegistry::new(),
            LuaComponentRegistry::new(),
            text,
            0,
        )
        .unwrap(),
    )
}

const NONE: KeyModifiers =
    KeyModifiers { shift: false, control: false, alt: false, super_key: false, hyper: false, meta: false };
const CONTROL: KeyModifiers = KeyModifiers { control: true, ..NONE };

fn key(code: KeyCode, modifiers: KeyModifiers, kind: KeyEventKind) -> Option<Event> {
    Some(Event::Key(KeyEvent { code, modifiers, kind }))
}

fn stops(event: Option<Event>) -> bool {
    let mut app = app("{}");
    assert!(app.is_running());
    assert!(app.handle_crossterm_events(event).is_none());
    !app.is_running()
}

#[test]
fn quit_keys() {
    assert!(stops(key(KeyCode::Esc, NONE, KeyEventKind::Press)));
    assert!(stops(key(KeyCode::Esc, CONTROL, KeyEventKind::Press)));
    assert!(stops(key(KeyCode::Char('q'), NONE, KeyEventKind::Press)));
    assert!(stops(key(KeyCode::Char('q'), KeyModifiers { alt: true, ..NONE }, KeyEventKind::Press)));
    assert!(stops(key(KeyCode::Char('c'), CONTROL, KeyEventKind::Press)));
    assert!(stops(key(KeyCode::Char('C'), CONTROL, KeyEventKind::Press)));
}

#[test]
fn other_events_do_not_quit() {
    assert!(!stops(None));
    assert!(!stops(Some(Event::Other)));
    assert!(!stops(Some(Event::Resize(80, 1))));
    assert!(!stops(key(KeyCode::Char('c'), NONE, KeyEventKind::Press)));
    assert!(!stops(key(KeyCode::Char('c'), KeyModifiers { shift: true, ..CONTROL }, KeyEventKind::Press)));
    assert!(!stops(key(KeyCode::Char('Q'), NONE, KeyEventKind::Press)));
    assert!(!stops(key(KeyCode::Char('x'), CONTROL, KeyEventKind::Press)));
    assert!(!stops(key(KeyCode::Other, NONE, KeyEventKind::Press)));
    assert!(!stops(key(KeyCode::Esc, NONE, KeyEventKind::Release)));
    assert!(!stops(key(KeyCode::Char('q'), NONE, KeyEventKind::Repeat)));
    assert!(!stops(Some(Event::Mouse(MouseEvent {
        kind: MouseEventKind::Down(MouseButton::Left),
        column: 0,
        row: 0
    }))));
}

#[test]
fn quitting_is_final() {
    let mut app = app("{}");
    app.quit();
    assert!(!app.is_running());
    app.handle_crossterm_events(key(KeyCode::Char('x'), NONE, KeyEventKind::Press));
    app.handle_crossterm_events(None);
    assert!(!app.is_running());
    app.on_key_event(KeyEvent { code: KeyCode::Other, modifiers: NONE, kind: KeyEventKind::Press });
    assert!(!app.is_running());
}

fn with_windows() -> App {
    let mut app = app(
        r#"{"left": [{"component": "windows"}], "middle": [{"component": "windows"}],
            "right": [{"component": "time"}]}"#,
    );
    let windows = |a: &str, b: &str| {
        Reading::Windows(Some((
            vec![
                WindowInfo::new(a.to_string(), "A".to_string()),
                WindowInfo::new(b.to_string(), "B".to_string()),
            ],
            String::new(),
        )))
    };
    assert!(app.update_components(vec![
        windows("0x1", "0x2"),
        windows("0x3", "0x4"),
        Reading::Clock { text: "now".to_string(), hour: 0 },
    ]));
    app
}

fn down(column: u16, row: u16) -> Option<Event> {
    Some(Event::Mouse(MouseEvent { kind: MouseEventKind::Down(MouseButton::Left), column, row }))
}

#[test]
fn clicks_dispatch_the_first_region_in_bar_order() {
    let mut app = with_windows();
    // no frame yet: nothing to click
    assert!(app.handle_crossterm_events(down(0, 0)).is_none());
    let left = Rect { x: 0, y: 0, width: 10, height: 1 };
    // the middle bar is drawn over the second window of the left bar
    let middle = Rect { x: 3, y: 0, width: 10, height: 1 };
    let right = Rect { x: 20, y: 0, width: 10, height: 1 };
    let frame = app.render(left, middle, right);
    assert_eq!(frame.left.unwrap().len(), 2);
    assert_eq!(frame.middle.unwrap().len(), 2);
    assert_eq!(frame.right.unwrap()[0].content, "now");
    assert_eq!(app.click_areas().len(), 4);
    let command = app.handle_crossterm_events(down(1, 0)).unwrap();
    assert_eq!(command.program, "hyprctl");
    assert_eq!(command.args, vec!["dispatch", "focuswindow", "0x1"]);
    // left and middle overlap on columns 3 to 5: the left bar wins
    assert_eq!(app.handle_crossterm_events(down(4, 0)).unwrap().args[2], "0x2");
    assert_eq!(app.handle_crossterm_events(down(6, 0)).unwrap().args[2], "0x4");
    assert!(app.handle_crossterm_events(down(9, 0)).is_none());
    assert!(app.handle_crossterm_events(down(1, 1)).is_none());
    assert!(app.handle_crossterm_events(down(21, 0)).is_none());
    assert!(app.is_running());
}

#[test]
fn only_the_left_button_going_down_clicks() {
    let mut app = with_windows();
    let area = Rect { x: 0, y: 0, width: 10, height: 1 };
    app.render(area, Rect { x: 10, ..area }, Rect { x: 20, ..area });
    for kind in [
        MouseEventKind::Down(MouseButton::Right),
        MouseEventKind::Down(MouseButton::Middle),
        MouseEventKind::Up(MouseButton::Left),
        MouseEventKind::Drag(MouseButton::Left),
        MouseEventKind::Moved,
        MouseEventKind::Scroll,
    ] {
        assert!(app.on_mouse_event(MouseEvent { kind, column: 1, row: 0 }).is_none());
    }
    assert!(app
        .on_mouse_event(MouseEvent { kind: MouseEventKind::Down(MouseButton::Left), column: 1, row: 0 })
        .is_some());
}

#[test]
fn each_frame_replaces_the_click_regions() {
    let mut app = with_windows();
    let area = Rect { x: 0, y: 0, width: 10, height: 1 };
    app.render(area, Rect { x: 10, ..area }, Rect { x: 20, ..area });
    assert_eq!(app.click_areas().len(), 4);
    app.render(area, Rect { x: 10, ..area }, Rect { x: 20, ..area });
    assert_eq!(app.click_areas().len(), 4);
    app.update_components(vec![Reading::Windows(None), Reading::Windows(None), Reading::Failed]);
    // the regions of the frame on screen stay until the next frame is drawn
    assert_eq!(app.click_areas().len(), 4);
    app.render(area, Rect { x: 10, ..area }, Rect { x: 20, ..area });
    assert!(app.click_areas().is_empty());
    assert!(app.handle_crossterm_events(down(1, 0)).is_none());
}

#[test]
fn handle_click_commands() {
    let workspace = App::handle_click(&ClickTarget::Workspace("3".to_string()));
    assert_eq!(workspace.program, "hyprctl");
    assert_eq!(workspace.args, vec!["dispatch", "workspace", "3"]);
    let window = App::handle_click(&ClickTarget::Window("0x12345678".to_string()));
    assert_eq!(window.args, vec!["dispatch", "focuswindow", "0x12345678"]);
}

#[test]
fn reload_signal_swaps_or_keeps() {
    let mut app = app(r#"{"left": [{"component": "time"}]}"#);
    assert_eq!(app.reload("oops", 0), Err(ConfigError::Malformed));
    assert_eq!(app.component_manager().get_bar_components("left").len(), 1);
    assert_eq!(app.reload(r#"{"right": [{"component": "cpu"}, {"component": "ram"}]}"#, 0), Ok(()));
    assert!(app.component_manager().get_bar_components("left").is_empty());
    assert_eq!(app.component_manager().get_bar_components("right").len(), 2);
    assert!(app.is_running());
}

#[test]
fn reload_triggers() {
    assert!(is_reload_trigger(Some(true), WatchEventKind::Modify));
    assert!(is_reload_trigger(Some(true), WatchEventKind::Create));
    assert!(!is_reload_trigger(Some(true), WatchEventKind::Remove));
    assert!(!is_reload_trigger(Some(true), WatchEventKind::Access));
    assert!(!is_reload_trigger(Some(true), WatchEventKind::Other));
    assert!(!is_reload_trigger(Some(false), WatchEventKind::Modify));
    assert!(!is_reload_trigger(None, WatchEventKind::Create));
}
