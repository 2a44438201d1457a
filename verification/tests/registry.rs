use catfood_bar::component_manager::Component;
use catfood_bar::components::{ComponentKind, ConfigurableComponentRegistry, FactoryError};
use catfood_bar::config::{
    is_configuration, read_colorize, read_entries, read_flag, read_text, read_unsigned, ConfigError,
    Region, Setting,
};
use catfood_bar::lua_component::{
    LuaComponent, LuaComponentRegistry, ScriptInspection, ScriptLoadError,
};
use catfood_bar::name_table::NameTable;
use catfood_bar::style::{Color, Fragment};

fn json(text: &str) -> serde_json::Value {
    serde_json::from_str(text).unwrap()
}

#[test]
fn extract_component_name_is_defensive() {
    let name = ConfigurableComponentRegistry::extract_component_name;
    assert_eq!(name(&json(r#"{"component": "time", "x": 1}"#)), "time");
    assert_eq!(name(&json(r#"{"component": ""}"#)), "");
    assert_eq!(name(&json(r#"{"name": "time"}"#)), "unknown");
    assert_eq!(name(&json(r#"{"component": 5}"#)), "unknown");
    assert_eq!(name(&json(r#"{"component": null}"#)), "unknown");
    assert_eq!(name(&json(r#""time""#)), "unknown");
    assert_eq!(name(&json(r#"["component", "time"]"#)), "unknown");
    assert_eq!(name(&json("null")), "unknown");
}

#[test]
fn try_create_answers_in_three_ways() {
    let registry = ConfigurableComponentRegistry::new();
    assert!(registry.try_create("wifi", &json(r#"{"component": "wifi"}"#), 0).is_none());
    assert!(registry.try_create("", &json("{}"), 0).is_none());
    match registry.try_create("cpu", &json(r#"{"component": "cpu", "sparkline": "yes"}"#), 0) {
        Some(Err(FactoryError::BadSettings)) => {}
        _ => panic!("Expected a refused configuration"),
    }
    match registry.try_create("cpu", &json(r#"{"component": "cpu", "sparkline_length": 3}"#), 9) {
        Some(Ok(Component::Cpu(cpu))) => {
            assert_eq!(cpu.sparkline_length, 3);
            assert_eq!(cpu.last_update, 9);
        }
        _ => panic!("Expected a cpu component"),
    }
    assert!(matches!(registry.try_create("time", &json("{}"), 0), Some(Ok(Component::Time(_)))));
    assert!(matches!(registry.try_create("ram", &json("{}"), 0), Some(Ok(Component::Ram(_)))));
    match registry.try_create("kitty_tabs", &json(r#"{"socket_path": "/tmp/k"}"#), 0) {
        Some(Ok(Component::KittyTabs(tabs))) => {
            assert_eq!(tabs.socket_path, Some("/tmp/k".to_string()))
        }
        _ => panic!("Expected a tab list"),
    }
    match registry.try_create("kitty_tabs", &json(r#"{"socket_path": null}"#), 0) {
        Some(Ok(Component::KittyTabs(tabs))) => assert_eq!(tabs.socket_path, None),
        _ => panic!("Expected a tab list"),
    }
    assert!(matches!(
        registry.try_create("kitty_tabs", &json(r#"{"socket_path": 3}"#), 0),
        Some(Err(FactoryError::BadSettings))
    ));
    // the name decides, not the entry's own component member
    assert!(matches!(
        registry.try_create("time", &json(r#"{"component": "cpu"}"#), 0),
        Some(Ok(Component::Time(_)))
    ));
}

#[test]
fn last_registration_wins() {
    let mut registry = ConfigurableComponentRegistry::empty();
    assert!(registry.try_create("wifi", &json("{}"), 0).is_none());
    registry.register_component("wifi", ComponentKind::Time);
    registry.register_component("wifi", ComponentKind::Ram);
    assert!(matches!(registry.try_create("wifi", &json("{}"), 0), Some(Ok(Component::Ram(_)))));
    assert_eq!(registry.factory("wifi"), Some(ComponentKind::Ram));
    // what only the first factory would refuse is accepted by the second
    let settings = json(r#"{"day_start": "six"}"#);
    assert!(matches!(registry.try_create("wifi", &settings, 0), Some(Ok(Component::Ram(_)))));
    registry.register_component("wifi", ComponentKind::Time);
    assert!(matches!(
        registry.try_create("wifi", &settings, 0),
        Some(Err(FactoryError::BadSettings))
    ));
    registry.remove("wifi");
    assert!(registry.try_create("wifi", &json("{}"), 0).is_none());
    assert_eq!(registry.factory("wifi"), None);
}

#[test]
fn new_registry_holds_the_builtin_factories() {
    let registry = ConfigurableComponentRegistry::new();
    assert_eq!(registry.factory("time"), Some(ComponentKind::Time));
    assert_eq!(registry.factory("cpu"), Some(ComponentKind::Cpu));
    assert_eq!(registry.factory("ram"), Some(ComponentKind::Ram));
    assert_eq!(registry.factory("kitty_tabs"), Some(ComponentKind::KittyTabs));
    assert_eq!(registry.factory("windows"), None);
    assert_eq!(registry.factory("Time"), None);
}

#[test]
fn name_table_replaces_and_removes() {
    let mut table: NameTable<u32> = NameTable::new();
    assert_eq!(table.get("a"), None);
    table.insert("a".to_string(), 1);
    table.insert("b".to_string(), 2);
    table.insert("a".to_string(), 3);
    assert_eq!(table.get("a"), Some(&3));
    assert_eq!(table.get("b"), Some(&2));
    assert!(table.contains("b"));
    table.remove("a");
    assert_eq!(table.get("a"), None);
    assert_eq!(table.get("b"), Some(&2));
    table.remove("missing");
    assert!(!table.contains("missing"));
}

#[test]
fn settings_are_read_by_type() {
    let entry = json(
        r#"{"flag": true, "count": 7, "big": 18446744073709551615, "neg": -1, "real": 1.5,
            "text": "x", "none": null, "list": []}"#,
    );
    assert_eq!(read_flag(&entry, "flag"), Setting::Given(true));
    assert_eq!(read_flag(&entry, "missing"), Setting::Absent);
    assert_eq!(read_flag(&entry, "count"), Setting::Mismatch);
    assert_eq!(read_flag(&entry, "none"), Setting::Mismatch);
    assert_eq!(read_unsigned(&entry, "count", 7), Setting::Given(7));
    assert_eq!(read_unsigned(&entry, "count", 6), Setting::Mismatch);
    assert_eq!(read_unsigned(&entry, "big", u64::MAX), Setting::Given(u64::MAX));
    assert_eq!(read_unsigned(&entry, "neg", u64::MAX), Setting::Mismatch);
    assert_eq!(read_unsigned(&entry, "real", u64::MAX), Setting::Mismatch);
    assert_eq!(read_unsigned(&entry, "text", u64::MAX), Setting::Mismatch);
    assert_eq!(read_unsigned(&entry, "missing", 0), Setting::Absent);
    assert_eq!(read_text(&entry, "text"), Setting::Given("x".to_string()));
    assert_eq!(read_text(&entry, "none"), Setting::Absent);
    assert_eq!(read_text(&entry, "missing"), Setting::Absent);
    assert_eq!(read_text(&entry, "list"), Setting::Mismatch);
    assert_eq!(read_flag(&json("[1]"), "flag"), Setting::Absent);
    assert_eq!(Setting::Given(3).value_or(9), 3);
    assert_eq!(Setting::<u8>::Absent.value_or(9), 9);
    assert!(Setting::<u8>::Mismatch.is_mismatch());
    assert!(!Setting::Given(1).is_mismatch());
}

#[test]
fn document_parts() {
    let document = json(r#"{"colorize": false, "left": [{"component": "time"}, 5], "right": {}}"#);
    assert!(is_configuration(&document));
    assert!(!is_configuration(&json("[]")));
    assert_eq!(read_colorize(&document), Ok(false));
    assert_eq!(read_colorize(&json("{}")), Ok(true));
    assert_eq!(read_colorize(&json(r#"{"colorize": "yes"}"#)), Err(ConfigError::BadColorize));
    assert_eq!(read_entries(&document, Region::Left).unwrap().unwrap().len(), 2);
    assert!(read_entries(&document, Region::Middle).unwrap().is_none());
    assert_eq!(read_entries(&document, Region::Right), Err(ConfigError::BadRegion(Region::Right)));
}

#[test]
fn region_names() {
    assert_eq!(Region::from_name("left"), Some(Region::Left));
    assert_eq!(Region::from_name("middle"), Some(Region::Middle));
    assert_eq!(Region::from_name("right"), Some(Region::Right));
    assert_eq!(Region::from_name("Left"), None);
    assert_eq!(Region::from_name(""), None);
    assert_eq!(Region::Left.name(), "left");
    assert_eq!(Region::Middle.name(), "middle");
    assert_eq!(Region::Right.name(), "right");
}

fn inspection(readable: bool, parsed: bool, has_update: bool, has_render: bool) -> ScriptInspection {
    ScriptInspection { readable, parsed, has_update, has_render }
}

#[test]
fn script_load_errors() {
    assert_eq!(inspection(true, true, true, true).check(), Ok(()));
    assert_eq!(inspection(false, true, true, true).check(), Err(ScriptLoadError::Unreadable));
    assert_eq!(inspection(false, false, false, false).check(), Err(ScriptLoadError::Unreadable));
    assert_eq!(inspection(true, false, true, true).check(), Err(ScriptLoadError::ParseFailure));
    assert_eq!(inspection(true, true, false, true).check(), Err(ScriptLoadError::MissingEntryPoint));
    assert_eq!(inspection(true, true, true, false).check(), Err(ScriptLoadError::MissingEntryPoint));
}

#[test]
fn script_registry_loads_and_replaces() {
    let mut registry = LuaComponentRegistry::new();
    assert!(registry.get_component("lua_clock").is_none());
    assert_eq!(
        registry.load_component("lua_clock", "examples/lua_clock.lua", inspection(true, true, true, true)),
        Ok(())
    );
    let clock = registry.get_component("lua_clock").unwrap();
    assert_eq!(clock.name, "lua_clock");
    assert_eq!(clock.script_path, "examples/lua_clock.lua");
    assert!(clock.spans.is_empty());
    assert!(!clock.degraded);
    assert_eq!(
        registry.load_component("lua_clock", "other.lua", inspection(true, false, true, true)),
        Err(ScriptLoadError::ParseFailure)
    );
    assert_eq!(registry.get_component("lua_clock").unwrap().script_path, "examples/lua_clock.lua");
    assert_eq!(registry.load_component("lua_clock", "other.lua", inspection(true, true, true, true)), Ok(()));
    assert_eq!(registry.get_component("lua_clock").unwrap().script_path, "other.lua");
    registry.remove("lua_clock");
    assert!(registry.get_component("lua_clock").is_none());
}

#[test]
fn script_component_degrades_on_failure() {
    let mut component = LuaComponent::new("s", "s.lua");
    assert!(component.render_as_spans_with_colorize(true).is_empty());
    component.update(Some(vec![Fragment::raw("12:00".to_string()).fg(Color::Cyan)]));
    let shown = component.render_as_spans_with_colorize(true);
    assert_eq!(shown.len(), 1);
    assert_eq!(shown[0].content, "12:00");
    assert_eq!(shown[0].fg, Some(Color::Cyan));
    assert!(!component.degraded);
    component.update(None);
    assert!(component.degraded);
    assert!(component.render_as_spans_with_colorize(false).is_empty());
    component.update(Some(Vec::new()));
    assert!(!component.degraded);
    assert_eq!(component.clone().name, "s");
}
