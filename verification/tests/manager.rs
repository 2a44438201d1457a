use catfood_bar::bars::{render_components, LeftBar, MiddleBar, Rect, RightBar};
use catfood_bar::click::ClickTarget;
use catfood_bar::component_manager::{Component, ComponentManager, Probe, Reading};
use catfood_bar::components::kitty_tabs::TabInfo;
use catfood_bar::components::windows::WindowInfo;
use catfood_bar::components::{ComponentKind, ConfigurableComponentRegistry};
use catfood_bar::config::{ConfigError, Region};
use catfood_bar::lua_component::{LuaComponentRegistry, ScriptInspection, ScriptLoadError};
use catfood_bar::style::{end_column_of, Color, Fragment};

fn manager(text: &str) -> ComponentManager {
    ComponentManager::from_text(ConfigurableComponentRegistry::new(), LuaComponentRegistry::new(), text, 0)
        .unwrap()
}

fn refused(text: &str) -> ConfigError {
    match ComponentManager::from_text(
        ConfigurableComponentRegistry::new(),
        LuaComponentRegistry::new(),
        text,
        0,
    ) {
        Ok(_) => panic!("Expected a refused configuration"),
        Err(e) => e,
    }
}

fn good_script() -> ScriptInspection {
    ScriptInspection { readable: true, parsed: true, has_update: true, has_render: true }
}

#[test]
fn unknown_component_is_left_out() {
    let manager = manager(r#"{"left": [{"component": "time"}, {"component": "unknown_widget"}]}"#);
    let left = manager.get_bar_components("left");
    assert_eq!(left.len(), 1);
    assert!(matches!(left[0], Component::Time(_)));
    assert_eq!(manager.skipped_entries(Region::Left), &vec![1]);
    assert!(manager.get_bar_components("middle").is_empty());
    assert!(manager.get_bar_components("right").is_empty());
    assert!(manager.get_bar_components("top").is_empty());
}

#[test]
fn siblings_of_an_unknown_entry_are_built_in_order() {
    let manager = manager(
        r#"{"right": [{"component": "nope"}, {"component": "ram"}, "cpu", {"component": "windows"},
                      {"name": "time"}, {"component": "cpu", "sparkline": true}]}"#,
    );
    let right = manager.get_bar_components("right");
    assert_eq!(right.len(), 3);
    assert!(matches!(right[0], Component::Ram(_)));
    assert!(matches!(right[1], Component::Windows(_)));
    match right[2] {
        Component::Cpu(cpu) => assert!(cpu.sparkline),
        _ => panic!("Expected a cpu component"),
    }
    assert_eq!(manager.skipped_entries(Region::Right), &vec![0, 2, 4]);
    assert!(manager.skipped_entries(Region::Left).is_empty());
}

#[test]
fn reload_keeps_the_live_set_when_a_factory_refuses() {
    let mut registry = ConfigurableComponentRegistry::new();
    registry.register_component("wifi", ComponentKind::Cpu);
    let mut manager = ComponentManager::from_text(
        registry,
        LuaComponentRegistry::new(),
        r#"{"colorize": false, "left": [{"component": "wifi", "sparkline_length": 7}]}"#,
        100,
    )
    .unwrap();
    assert_eq!(
        manager.reload_from_text(r#"{"left": [{"component": "time"}, {"component": "wifi", "sparkline_length": "seven"}]}"#, 200),
        Err(ConfigError::Construction(Region::Left, 1))
    );
    {
        let left = manager.get_bar_components("left");
        assert_eq!(left.len(), 1);
        match left[0] {
            Component::Cpu(cpu) => {
                assert_eq!(cpu.sparkline_length, 7);
                assert_eq!(cpu.last_update, 100);
            }
            _ => panic!("Expected the component of the first configuration"),
        }
    }
    assert!(!manager.get_colorize());
    assert_eq!(manager.reload_from_text("{ not json", 200), Err(ConfigError::Malformed));
    assert_eq!(manager.reload_from_text("[]", 200), Err(ConfigError::NotAnObject));
    assert_eq!(manager.get_bar_components("left").len(), 1);
    assert_eq!(
        manager.reload_from_text(r#"{"middle": [{"component": "wifi", "sparkline_length": 3}]}"#, 300),
        Ok(())
    );
    assert!(manager.get_bar_components("left").is_empty());
    assert!(manager.get_colorize());
    match manager.get_bar_components("middle")[0] {
        Component::Cpu(cpu) => {
            assert_eq!(cpu.sparkline_length, 3);
            assert_eq!(cpu.last_update, 300);
        }
        _ => panic!("Expected the new component"),
    }
}

#[test]
fn configuration_errors() {
    assert_eq!(refused("nonsense"), ConfigError::Malformed);
    assert_eq!(refused(""), ConfigError::Malformed);
    assert_eq!(refused("3"), ConfigError::NotAnObject);
    assert_eq!(refused(r#"{"colorize": 1}"#), ConfigError::BadColorize);
    assert_eq!(refused(r#"{"left": "time"}"#), ConfigError::BadRegion(Region::Left));
    assert_eq!(refused(r#"{"middle": {}}"#), ConfigError::BadRegion(Region::Middle));
    assert_eq!(
        refused(r#"{"left": [{"component": "x"}], "right": [{"component": "time"}, {"component": "x"}, {"component": "time", "day_start": 300}, {"component": "cpu", "sparkline": 2}]}"#),
        ConfigError::Construction(Region::Right, 2)
    );
    // earlier checks come first
    assert_eq!(
        refused(r#"{"colorize": 3, "left": [{"component": "time", "day_start": 300}]}"#),
        ConfigError::BadColorize
    );
    assert_eq!(
        refused(r#"{"left": [{"component": "time", "day_start": 300}], "middle": 4}"#),
        ConfigError::Construction(Region::Left, 0)
    );
}

#[test]
fn built_in_fallback_and_scripts() {
    let mut scripts = LuaComponentRegistry::new();
    scripts.load_component("lua_clock", "clock.lua", good_script()).unwrap();
    scripts.load_component("cpu", "cpu.lua", good_script()).unwrap();
    let manager = ComponentManager::new(
        ConfigurableComponentRegistry::empty(),
        scripts,
        &serde_json::from_str(
            r#"{"middle": [{"component": "lua_clock"}, {"component": "cpu"}, {"component": "ram"},
                           {"component": "kitty_tabs"}, {"component": "time", "day_start": "x"}]}"#,
        )
        .unwrap(),
        5,
    )
    .unwrap();
    let middle = manager.get_bar_components("middle");
    assert_eq!(middle.len(), 5);
    assert!(matches!(middle[0], Component::Script(_)));
    // a script stands before the built-in component of the same name
    match middle[1] {
        Component::Script(script) => assert_eq!(script.script_path, "cpu.lua"),
        _ => panic!("Expected the script"),
    }
    assert!(matches!(middle[2], Component::Ram(_)));
    assert!(matches!(middle[3], Component::KittyTabs(_)));
    // without a factory the settings are not read
    match middle[4] {
        Component::Time(clock) => assert_eq!(clock.day_start, 6),
        _ => panic!("Expected a clock"),
    }
}

#[test]
fn factories_and_scripts_share_one_namespace() {
    let mut manager = manager("{}");
    let config = r#"{"left": [{"component": "cpu"}]}"#;
    assert_eq!(manager.load_component("cpu", "cpu.lua", good_script()), Ok(()));
    manager.reload_from_text(config, 0).unwrap();
    assert!(matches!(manager.get_bar_components("left")[0], Component::Script(_)));
    manager.register_component("cpu", ComponentKind::Ram);
    manager.reload_from_text(config, 0).unwrap();
    assert!(matches!(manager.get_bar_components("left")[0], Component::Ram(_)));
    let bad = ScriptInspection { has_render: false, ..good_script() };
    assert_eq!(manager.load_component("cpu", "cpu.lua", bad), Err(ScriptLoadError::MissingEntryPoint));
    manager.reload_from_text(config, 0).unwrap();
    assert!(matches!(manager.get_bar_components("left")[0], Component::Ram(_)));
}

#[test]
fn probes_follow_the_components() {
    let mut manager = manager(
        r#"{"left": [{"component": "windows"}, {"component": "kitty_tabs"}],
            "middle": [{"component": "time"}],
            "right": [{"component": "cpu"}, {"component": "ram"}]}"#,
    );
    manager.load_component("s", "s.lua", good_script()).unwrap();
    assert_eq!(
        manager.probes(),
        vec![Probe::Windows, Probe::Tabs, Probe::Clock, Probe::CpuLoad, Probe::MemoryLoad]
    );
}

#[test]
fn update_is_best_effort() {
    let mut manager = manager(
        r#"{"left": [{"component": "windows"}, {"component": "kitty_tabs"}],
            "middle": [{"component": "time"}],
            "right": [{"component": "cpu"}, {"component": "ram"}]}"#,
    );
    let all = manager.update(vec![
        Reading::Windows(Some((vec![WindowInfo::new("0x1".to_string(), "W".to_string())], "0x1".to_string()))),
        Reading::Tabs { kitty_pid: Some(3), tabs: Some(vec![TabInfo::new("zsh".to_string(), true)]) },
        Reading::Clock { text: "12:00".to_string(), hour: 12 },
        Reading::Load { now: 3_000, percent: 91 },
        Reading::Load { now: 3_000, percent: 17 },
    ]);
    assert!(all);
    match manager.get_bar_components("right")[0] {
        Component::Cpu(cpu) => assert_eq!(cpu.usage, "91"),
        _ => panic!("Expected a cpu component"),
    }
    match manager.get_bar_components("right")[1] {
        Component::Ram(ram) => assert_eq!(ram.usage, "17"),
        _ => panic!("Expected a ram component"),
    }
    // the second reading fails, the fourth is of the wrong kind, the fifth is missing
    let all = manager.update(vec![
        Reading::Windows(None),
        Reading::Failed,
        Reading::Clock { text: "12:01".to_string(), hour: 12 },
        Reading::Clock { text: "12:01".to_string(), hour: 12 },
    ]);
    assert!(!all);
    match manager.get_bar_components("left")[0] {
        Component::Windows(windows) => assert!(windows.windows.is_empty()),
        _ => panic!("Expected a window list"),
    }
    match manager.get_bar_components("left")[1] {
        Component::KittyTabs(tabs) => {
            assert!(tabs.tabs.is_empty());
            assert_eq!(tabs.kitty_pid, None);
        }
        _ => panic!("Expected a tab list"),
    }
    match manager.get_bar_components("middle")[0] {
        Component::Time(clock) => assert_eq!(clock.time_string, "12:01"),
        _ => panic!("Expected a clock"),
    }
    match manager.get_bar_components("right")[0] {
        Component::Cpu(cpu) => assert_eq!(cpu.usage, "91"),
        _ => panic!("Expected a cpu component"),
    }
    match manager.get_bar_components("right")[1] {
        Component::Ram(ram) => assert_eq!(ram.usage, "17"),
        _ => panic!("Expected a ram component"),
    }
    // readings beyond the last component are ignored
    assert!(manager.update(vec![
        Reading::Windows(None),
        Reading::Tabs { kitty_pid: None, tabs: None },
        Reading::Clock { text: "12:02".to_string(), hour: 12 },
        Reading::Load { now: 6_000, percent: 1 },
        Reading::Load { now: 6_000, percent: 2 },
        Reading::Failed,
    ]));
}

#[test]
fn script_components_take_script_readings() {
    let mut scripts = LuaComponentRegistry::new();
    scripts.load_component("s", "s.lua", good_script()).unwrap();
    let mut manager = ComponentManager::from_text(
        ConfigurableComponentRegistry::new(),
        scripts,
        r#"{"left": [{"component": "s"}]}"#,
        0,
    )
    .unwrap();
    assert_eq!(manager.probes(), vec![Probe::Script]);
    assert!(manager.update(vec![Reading::Script(Some(vec![Fragment::raw("hi".to_string())]))]));
    assert_eq!(manager.get_bar_components("left")[0].render_as_spans_with_colorize(true)[0].content, "hi");
    assert!(!manager.update(vec![Reading::Script(None)]));
    assert!(manager.get_bar_components("left")[0].render_as_spans_with_colorize(true).is_empty());
    match manager.get_bar_components("left")[0] {
        Component::Script(script) => assert!(script.degraded),
        _ => panic!("Expected a script component"),
    }
}

#[test]
fn bars_lay_components_out_from_left_to_right() {
    let mut manager = manager(
        r#"{"colorize": true,
            "left": [{"component": "time"}, {"component": "windows"}, {"component": "cpu"}],
            "right": [{"component": "ram"}]}"#,
    );
    manager.update(vec![
        Reading::Clock { text: "12:00".to_string(), hour: 12 },
        Reading::Windows(Some((
            vec![
                WindowInfo::new("0xa".to_string(), "A".to_string()),
                WindowInfo::new("0xb".to_string(), "B".to_string()),
            ],
            "0xb".to_string(),
        ))),
        Reading::Load { now: 0, percent: 0 },
        Reading::Load { now: 0, percent: 0 },
    ]);
    let area = Rect { x: 4, y: 1, width: 40, height: 1 };
    let bar = LeftBar::new().render(area, &manager);
    let line = bar.line.unwrap();
    let contents: Vec<&str> = line.iter().map(|s| s.content.as_str()).collect();
    assert_eq!(contents, vec!["12:00", " A ", " B ", "󰻠 0%"]);
    assert_eq!(line[0].fg, Some(Color::Yellow));
    assert_eq!(bar.click_areas.len(), 2);
    assert_eq!((bar.click_areas[0].x, bar.click_areas[0].y, bar.click_areas[0].width), (9, 1, 3));
    assert_eq!((bar.click_areas[1].x, bar.click_areas[1].y, bar.click_areas[1].width), (12, 1, 3));
    match &bar.click_areas[1].target {
        ClickTarget::Window(address) => assert_eq!(address, "0xb"),
        ClickTarget::Workspace(_) => panic!("Expected window target"),
    }
    assert_eq!(end_column_of(&line, 4), 4 + 5 + 3 + 3 + 4);
    let middle = MiddleBar::new().render(area, &manager);
    assert!(middle.line.is_none());
    assert!(middle.click_areas.is_empty());
    let right = RightBar::new().render(area, &manager);
    assert_eq!(right.line.unwrap()[0].content, "󰍛 0%");
    let none = render_components(&Vec::new(), true, area);
    assert!(none.line.is_none());
}

#[test]
fn colorize_reaches_the_components() {
    let mut manager = manager(r#"{"colorize": false, "left": [{"component": "time"}]}"#);
    manager.update(vec![Reading::Clock { text: "t".to_string(), hour: 1 }]);
    let bar = LeftBar::new().render(Rect { x: 0, y: 0, width: 10, height: 1 }, &manager);
    assert_eq!(bar.line.unwrap()[0].fg, None);
}

#[test]
fn click_regions_follow_cells_not_bytes() {
    let mut scripts = LuaComponentRegistry::new();
    scripts.load_component("s", "s.lua", good_script()).unwrap();
    let mut manager = ComponentManager::from_text(
        ConfigurableComponentRegistry::new(),
        scripts,
        r#"{"left": [{"component": "s"}, {"component": "cpu"}, {"component": "windows"}]}"#,
        0,
    )
    .unwrap();
    manager.update(vec![
        Reading::Script(Some(vec![Fragment::raw("\u{e9}".to_string())])),
        Reading::Load { now: 0, percent: 0 },
        Reading::Windows(Some((
            vec![WindowInfo::new("0xa".to_string(), "A".to_string())],
            String::new(),
        ))),
    ]);
    let bar = LeftBar::new().render(Rect { x: 0, y: 0, width: 40, height: 1 }, &manager);
    // one cell for the script's letter, four for the gauge
    assert_eq!(bar.click_areas.len(), 1);
    assert_eq!((bar.click_areas[0].x, bar.click_areas[0].width), (5, 3));
}
