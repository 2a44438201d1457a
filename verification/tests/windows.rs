use catfood_bar::click::ClickTarget;
use catfood_bar::components::windows::{
    app_icon_of_lowercase, get_app_icon, get_windows, Window, WindowInfo, Windows, Workspace,
};
use catfood_bar::style::Color;

#[test]
fn app_icon_values() {
    assert_eq!(get_app_icon("firefox"), "َ°ˆ¹");
    assert_eq!(get_app_icon("Firefox"), "َ°ˆ¹");
    assert_eq!(get_app_icon("firefox-developer-edition"), "َ°ˆ¹");
    assert_eq!(get_app_icon("kitty"), "َ°„›");
    assert_eq!(get_app_icon("Code"), "َ°¨‍");
    assert_eq!(get_app_icon("code-oss"), "َ°¨‍");
    assert_eq!(get_app_icon("telegram"), "َ°ˆ¨");
    assert_eq!(get_app_icon("steam"), "َ°““");
    assert_eq!(get_app_icon("firefoxy"), "َ°چœ");
    assert_eq!(get_app_icon(""), "َ°چœ");
    assert_eq!(get_app_icon("browser"), "َ°چœ");
}

#[test]
fn app_icon_of_lowercase_does_not_fold_case() {
    assert_eq!(app_icon_of_lowercase("kitty"), "َ°„›");
    assert_eq!(app_icon_of_lowercase("Kitty"), "َ°چœ");
}

fn reported(address: &str, class: &str, id: i32) -> Window {
    Window { address: address.to_string(), class: class.to_string(), workspace: Workspace { id } }
}

#[test]
fn get_windows_keeps_ordinary_workspaces_in_order() {
    let clients = vec![
        reported("0x1", "firefox", 1),
        reported("0x2", "kitty", -98),
        reported("0x3", "Steam", 3),
        reported("0x4", "kitty", 0),
        reported("0x5", "something", 2147483647),
    ];
    let (windows, active) = get_windows(Some(&clients), Some("0x3")).unwrap();
    assert_eq!(active, "0x3");
    assert_eq!(windows.len(), 3);
    assert_eq!((windows[0].address.as_str(), windows[0].icon.as_str()), ("0x1", "َ°ˆ¹"));
    assert_eq!((windows[1].address.as_str(), windows[1].icon.as_str()), ("0x3", "َ°““"));
    assert_eq!((windows[2].address.as_str(), windows[2].icon.as_str()), ("0x5", "َ°چœ"));
}

#[test]
fn get_windows_without_answer() {
    assert!(get_windows(None, Some("0x1")).is_none());
    let (windows, active) = get_windows(Some(&Vec::new()), None).unwrap();
    assert!(windows.is_empty());
    assert_eq!(active, "");
}

#[test]
fn windows_new_and_update() {
    let mut list = Windows::new(None);
    assert!(list.windows.is_empty());
    assert_eq!(list.active_window, "");
    list.update(Some((vec![WindowInfo::new("0x1".to_string(), "A".to_string())], "0x1".to_string())));
    assert_eq!(list.windows.len(), 1);
    assert_eq!(list.active_window, "0x1");
    list.update(None);
    assert!(list.windows.is_empty());
    assert_eq!(list.active_window, "");
    let filled = Windows::new(Some((vec![WindowInfo::new("0x2".to_string(), "B".to_string())], "0x9".to_string())));
    assert_eq!(filled.windows[0].address, "0x2");
    assert_eq!(filled.active_window, "0x9");
}

#[test]
fn windows_render_marks_the_focused_window() {
    let list = Windows {
        windows: vec![
            WindowInfo::new("0x1".to_string(), "A".to_string()),
            WindowInfo::new("0x2".to_string(), "B".to_string()),
        ],
        active_window: "0x2".to_string(),
    };
    let spans = list.render();
    assert_eq!(spans.len(), 2);
    assert_eq!(spans[0].content, " A ");
    assert_eq!(spans[0].fg, Some(Color::White));
    assert_eq!(spans[0].bg, None);
    assert_eq!(spans[1].content, " B ");
    assert_eq!(spans[1].fg, Some(Color::Black));
    assert_eq!(spans[1].bg, Some(Color::White));
}

#[test]
fn windows_click_areas_follow_the_fragments() {
    let list = Windows {
        windows: vec![
            WindowInfo::new("0x1".to_string(), "A".to_string()),
            WindowInfo::new("0x2".to_string(), "\u{e9}".to_string()),
            WindowInfo::new("0x3".to_string(), "\u{6f22}".to_string()),
            WindowInfo::new("0x4".to_string(), "\u{f018d}".to_string()),
            WindowInfo::new("0x5".to_string(), "C".to_string()),
        ],
        active_window: String::new(),
    };
    let (spans, areas) = list.render_with_bounds(10, 2);
    assert_eq!(spans.len(), 5);
    assert_eq!(areas.len(), 5);
    let cells: Vec<(u16, u16, u16, u16)> =
        areas.iter().map(|a| (a.x, a.y, a.width, a.height)).collect();
    // one cell for the accented letter and for the icon, two for the wide character
    assert_eq!(
        cells,
        vec![(10, 2, 3, 1), (13, 2, 3, 1), (16, 2, 4, 1), (20, 2, 3, 1), (23, 2, 3, 1)]
    );
    match &areas[1].target {
        ClickTarget::Window(address) => assert_eq!(address, "0x2"),
        ClickTarget::Workspace(_) => panic!("Expected window target"),
    }
}

#[test]
fn windows_click_areas_wrap_with_the_columns() {
    let list = Windows {
        windows: vec![
            WindowInfo::new("0x1".to_string(), "A".to_string()),
            WindowInfo::new("0x2".to_string(), "B".to_string()),
        ],
        active_window: String::new(),
    };
    let (_, areas) = list.render_with_bounds(65534, 0);
    assert_eq!(areas[0].x, 65534);
    assert_eq!(areas[1].x, 1);
}

#[test]
fn default_window_list_is_empty() {
    let list = Windows::default();
    assert!(list.windows.is_empty());
    assert_eq!(list.active_window, "");
    assert!(list.clone().render().is_empty());
}
