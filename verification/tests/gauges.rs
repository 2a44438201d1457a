use catfood_bar::components::cpu::Cpu;
use catfood_bar::components::ram::Ram;
use catfood_bar::components::sparkline::{peak, render_sparkline, repeat_blank};
use catfood_bar::components::status_bar::{parse_brightness, StatusBar};
use catfood_bar::components::system_info::SystemInfo;
use catfood_bar::components::time::Time;
use catfood_bar::components::ConfigurableComponent;
use catfood_bar::style::Color;
use catfood_bar::time_utils::{
    default_day_start, default_night_start, get_time_based_color, is_daytime, is_nighttime,
};

#[test]
fn default_boundaries() {
    assert_eq!(default_day_start(), 6);
    assert_eq!(default_night_start(), 18);
}

#[test]
fn day_and_night_split_the_hours() {
    assert!(!is_daytime(5, 6, 18));
    assert!(is_daytime(6, 6, 18));
    assert!(is_daytime(17, 6, 18));
    assert!(!is_daytime(18, 6, 18));
    assert!(is_nighttime(5, 6, 18));
    assert!(!is_nighttime(6, 6, 18));
    assert!(is_nighttime(18, 6, 18));
    assert!(is_nighttime(23, 6, 18));
    for hour in 0..24 {
        assert_ne!(is_daytime(hour, 6, 18), is_nighttime(hour, 6, 18));
        assert!(is_nighttime(hour, 20, 8));
    }
    assert!(is_daytime(300, 0, 255) == false);
}

#[test]
fn time_based_color_follows_the_hour() {
    assert_eq!(get_time_based_color(Color::Yellow, Color::Magenta, 12, 6, 18), Color::Yellow);
    assert_eq!(get_time_based_color(Color::Yellow, Color::Magenta, 3, 6, 18), Color::Magenta);
    assert_eq!(get_time_based_color(Color::Red, Color::Blue, 18, 6, 18), Color::Blue);
}

#[test]
fn time_shows_its_reading() {
    let mut clock = Time::new("2024-01-02 03:04:05", 3);
    assert_eq!(clock.time_string, "2024-01-02 03:04:05");
    assert_eq!(clock.cached_span_content, "2024-01-02 03:04:05");
    assert_eq!((clock.day_start, clock.night_start), (6, 18));
    let night = clock.render_as_spans(true);
    assert_eq!(night.len(), 1);
    assert_eq!(night[0].content, "2024-01-02 03:04:05");
    assert_eq!(night[0].fg, Some(Color::Magenta));
    clock.update("2024-01-02 12:00:00", 12);
    let day = clock.render_as_spans(true);
    assert_eq!(day[0].content, "2024-01-02 12:00:00");
    assert_eq!(day[0].fg, Some(Color::Yellow));
    let plain = clock.render_as_spans(false);
    assert_eq!(plain[0].fg, None);
    assert_eq!(plain[0].bg, None);
    let custom = Time::with_config(13, 14, "t", 12);
    assert_eq!(custom.render_as_spans(true)[0].fg, Some(Color::Magenta));
    assert_eq!(custom.clone().time_string, "t");
}

#[test]
fn time_from_config() {
    let settings: serde_json::Value =
        serde_json::from_str(r#"{"component": "time", "day_start": 7, "night_start": 20}"#).unwrap();
    let clock = Time::from_config(&settings, 0).unwrap();
    assert_eq!((clock.day_start, clock.night_start), (7, 20));
    assert_eq!(clock.time_string, "");
    let defaults: serde_json::Value = serde_json::from_str(r#"{"component": "time"}"#).unwrap();
    let clock = Time::from_config(&defaults, 0).unwrap();
    assert_eq!((clock.day_start, clock.night_start), (6, 18));
    for bad in [
        r#"{"day_start": 256}"#,
        r#"{"day_start": -1}"#,
        r#"{"night_start": "18"}"#,
        r#"{"night_start": 18.5}"#,
        r#"{"day_start": null}"#,
    ] {
        let settings: serde_json::Value = serde_json::from_str(bad).unwrap();
        assert!(Time::from_config(&settings, 0).is_none());
    }
}

#[test]
fn sparkline_rows() {
    assert_eq!(render_sparkline(&vec![0, 0, 0], 5), "     ");
    assert_eq!(render_sparkline(&vec![], 5), "");
    assert_eq!(render_sparkline(&vec![0, 1, 2, 3, 4, 5, 6, 7, 8], 9), " ▁▂▃▄▅▆▇█");
    assert_eq!(render_sparkline(&vec![100, 50, 12, 13, 0], 5), "█▄ ▁ ");
    assert_eq!(render_sparkline(&vec![4294967295, 1], 2), "█ ");
    assert_eq!(repeat_blank(0), "");
    assert_eq!(repeat_blank(3), "   ");
    assert_eq!(peak(&vec![3, 9, 2]), 9);
    assert_eq!(peak(&vec![]), 0);
}

#[test]
fn cpu_percentage() {
    let mut cpu = Cpu::new(1_000);
    assert_eq!(cpu.usage, "0");
    assert_eq!(cpu.cached_span_content, "󰻠 0%");
    assert_eq!(cpu.update_interval, 3);
    assert_eq!(cpu.sparkline_data, vec![0; 10]);
    cpu.update(3_999, 42);
    assert_eq!(cpu.usage, "0");
    assert_eq!(cpu.last_update, 1_000);
    cpu.update(4_000, 42);
    assert_eq!(cpu.usage, "42");
    assert_eq!(cpu.cached_span_content, "󰻠 42%");
    assert_eq!(cpu.last_update, 4_000);
    assert_eq!(cpu.sparkline_data, vec![0; 10]);
    assert_eq!(cpu.render_as_spans(true)[0].fg, Some(Color::White));
    cpu.update(3_000, 99);
    assert_eq!(cpu.usage, "42");
    cpu.update(7_000, 90);
    assert_eq!(cpu.render_as_spans(true)[0].fg, Some(Color::Red));
    assert_eq!(cpu.render_as_spans(true)[0].content, "󰻠 90%");
    assert_eq!(cpu.render_as_spans(false)[0].fg, None);
    cpu.usage = "n/a".to_string();
    assert_eq!(cpu.render_as_spans(true)[0].fg, Some(Color::White));
}

#[test]
fn cpu_sparkline() {
    let mut cpu = Cpu::with_config(true, 4, 0, 0);
    assert_eq!(cpu.cached_span_content, "󰻠     ");
    cpu.update(0, 50);
    assert_eq!(cpu.sparkline_data, vec![0, 0, 0, 50]);
    assert_eq!(cpu.cached_span_content, "󰻠    █");
    cpu.update(1, 100);
    assert_eq!(cpu.sparkline_data, vec![0, 0, 50, 100]);
    assert_eq!(cpu.cached_span_content, "󰻠   ▄█");
    cpu.update(2, 0);
    cpu.update(3, 0);
    cpu.update(4, 0);
    cpu.update(5, 0);
    assert_eq!(cpu.cached_span_content, "󰻠     ");
    assert_eq!(cpu.clone().sparkline_data, vec![0, 0, 0, 0]);
}

#[test]
fn ram_gauge() {
    let mut ram = Ram::new(0);
    assert_eq!(ram.cached_span_content, "󰍛 0%");
    assert_eq!(ram.update_interval, 2);
    ram.update(1_999, 10);
    assert_eq!(ram.usage, "0");
    ram.update(2_000, 89);
    assert_eq!(ram.cached_span_content, "󰍛 89%");
    assert_eq!(ram.render_as_spans(true)[0].fg, Some(Color::Green));
    ram.update(4_000, 4294967295);
    assert_eq!(ram.usage, "4294967295");
    assert_eq!(ram.render_as_spans(true)[0].fg, Some(Color::Red));
    let bars = Ram::with_config(true, 2, 1, 0);
    assert_eq!(bars.cached_span_content, "󰍛   ");
}

#[test]
fn gauges_from_config() {
    let settings: serde_json::Value = serde_json::from_str(
        r#"{"component": "cpu", "sparkline": true, "sparkline_length": 5, "sparkline_update_freq": 9}"#,
    )
    .unwrap();
    let cpu = Cpu::from_config(&settings, 77).unwrap();
    assert!(cpu.sparkline);
    assert_eq!(cpu.sparkline_length, 5);
    assert_eq!(cpu.update_interval, 9);
    assert_eq!(cpu.last_update, 77);
    let ram = Ram::from_config(&serde_json::from_str(r#"{}"#).unwrap(), 5).unwrap();
    assert!(!ram.sparkline);
    assert_eq!((ram.sparkline_length, ram.update_interval), (10, 2));
    for bad in [
        r#"{"sparkline": 1}"#,
        r#"{"sparkline_length": "5"}"#,
        r#"{"sparkline_update_freq": -3}"#,
        r#"{"sparkline": true, "sparkline_length": 0}"#,
    ] {
        let settings: serde_json::Value = serde_json::from_str(bad).unwrap();
        assert!(Cpu::from_config(&settings, 0).is_none());
        assert!(Ram::from_config(&settings, 0).is_none());
    }
    let idle: serde_json::Value =
        serde_json::from_str(r#"{"sparkline": false, "sparkline_length": 0}"#).unwrap();
    assert!(Cpu::from_config(&idle, 0).is_some());
}

#[test]
fn brightness_is_the_first_percentage() {
    let report = "Device 'intel_backlight' of class 'backlight':\n\tCurrent brightness: 4800 (40%)\n\tMax brightness: 12000 100%\n";
    assert_eq!(parse_brightness(report), Some("40%".to_string()));
    assert_eq!(parse_brightness("no number here %"), None);
    assert_eq!(parse_brightness(""), None);
    assert_eq!(parse_brightness("7%8%"), Some("7%".to_string()));
}

#[test]
fn status_bar_line() {
    let mut bar = StatusBar::new(Some(35), Some("40%".to_string()), 87);
    let spans = bar.render();
    let contents: Vec<&str> = spans.iter().map(|s| s.content.as_str()).collect();
    assert_eq!(contents, vec![" | ", "󰃠 ", "40%", " ", "󰕾 ", "35%", " | ", "󰁹 ", "87%", " "]);
    bar.update(None, None, -1);
    assert_eq!(bar.volume, "0");
    assert_eq!(bar.brightness, "");
    assert_eq!(bar.bat_percent, "-1");
    bar.update(Some(-2147483648), None, 2147483647);
    assert_eq!(bar.volume, "-2147483648");
    assert_eq!(bar.bat_percent, "2147483647");
}

#[test]
fn system_info_line() {
    let mut info = SystemInfo::new();
    assert_eq!((info.cpu.as_str(), info.ram.as_str()), ("0", "0"));
    info.update(12, 100);
    let spans = info.render();
    let contents: Vec<&str> = spans.iter().map(|s| s.content.as_str()).collect();
    assert_eq!(contents, vec!["󰻠 ", "12%", " ", "󰍛 ", "100%"]);
}

#[test]
fn gauge_without_history_takes_readings() {
    let mut cpu = Cpu::with_config(true, 0, 0, 0);
    assert_eq!(cpu.cached_span_content, "󰻠 ");
    cpu.update(0, 50);
    assert_eq!(cpu.usage, "50");
    assert!(cpu.sparkline_data.is_empty());
    assert_eq!(cpu.cached_span_content, "󰻠 ");
    assert_eq!(cpu.last_update, 0);
    cpu.update(9, 95);
    assert_eq!(cpu.render_as_spans(true)[0].fg, Some(Color::Red));
    let mut ram = Ram::with_config(true, 0, 0, 0);
    ram.update(1, 7);
    assert_eq!(ram.usage, "7");
    assert!(ram.sparkline_data.is_empty());
    // a history that was emptied by hand is not refilled
    let mut emptied = Cpu::with_config(true, 3, 0, 0);
    emptied.sparkline_data.clear();
    emptied.update(1, 7);
    assert!(emptied.sparkline_data.is_empty());
    assert_eq!(emptied.cached_span_content, "󰻠 ");
}
