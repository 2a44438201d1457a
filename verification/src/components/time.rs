//! The clock.

use vstd::prelude::*;
use crate::components::ConfigurableComponent;
use crate::config::{read_unsigned, Setting};
use crate::json::{json_content, JsonView};
use crate::style::{fragment_views, Color, Fragment, FragmentView};
use crate::time_utils::{default_day_start, default_night_start, get_time_based_color, time_based_color};

verus! {

/// A clock that shows the time it was last given.
#[derive(Debug)]
pub struct Time {
    pub time_string: String,
    pub cached_span_content: String,
    pub day_start: u8,
    pub night_start: u8,
    /// The hour of the day of the last reading.
    pub hour: u32,
}

/// The state of a clock.
pub struct TimeView {
    pub time_string: Seq<char>,
    pub cached_span_content: Seq<char>,
    pub day_start: u8,
    pub night_start: u8,
    pub hour: u32,
}

impl View for Time {
    type V = TimeView;

    open spec fn view(&self) -> TimeView {
        TimeView {
            time_string: self.time_string@,
            cached_span_content: self.cached_span_content@,
            day_start: self.day_start,
            night_start: self.night_start,
            hour: self.hour,
        }
    }
}

impl TimeView {
    /// A clock with these boundaries that shows `now`.
    pub open spec fn configured(day_start: u8, night_start: u8, now: Seq<char>, hour: u32) -> TimeView {
        TimeView { time_string: now, cached_span_content: now, day_start, night_start, hour }
    }

    /// The clock after a reading: it shows the new time and keeps its
    /// boundaries.
    pub open spec fn updated(self, now: Seq<char>, hour: u32) -> TimeView {
        TimeView { time_string: now, cached_span_content: now, hour, ..self }
    }

    /// What the clock renders: its cached text, yellow by day and magenta
    /// by night where colours are on.
    pub open spec fn rendered(self, colorize: bool) -> Seq<FragmentView> {
        let span = FragmentView::raw(self.cached_span_content);
        if colorize {
            seq![
                span.fg(
                    time_based_color(
                        Color::Yellow,
                        Color::Magenta,
                        self.hour,
                        self.day_start,
                        self.night_start,
                    ),
                ),
            ]
        } else {
            seq![span]
        }
    }
}

impl Time {
    /// A clock with the default day and night boundaries. `now` is the
    /// formatted local time and `hour` its hour of the day.
    pub fn new(now: &str, hour: u32) -> (clock: Time)
        ensures
            clock@ == TimeView::configured(6, 18, now@, hour),
    {
        Time::with_config(default_day_start(), default_night_start(), now, hour)
    }

    /// A clock with the given day and night boundaries.
    pub fn with_config(day_start: u8, night_start: u8, now: &str, hour: u32) -> (clock: Time)
        ensures
            clock@ == TimeView::configured(day_start, night_start, now@, hour),
    {
        let time_string = now.to_owned();
        Time {
            time_string: time_string.clone(),
            cached_span_content: time_string,
            day_start,
            night_start,
            hour,
        }
    }

    /// Takes a new reading of the local time.
    pub fn update(&mut self, now: &str, hour: u32)
        ensures
            final(self)@ == old(self)@.updated(now@, hour),
    {
        self.time_string = now.to_owned();
        self.cached_span_content = self.time_string.clone();
        self.hour = hour;
    }

    /// Renders the clock as one fragment.
    pub fn render_as_spans(&self, colorize: bool) -> (spans: Vec<Fragment>)
        ensures
            fragment_views(spans@) == self@.rendered(colorize),
    {
        let span = Fragment::raw(self.cached_span_content.clone());
        let mut spans: Vec<Fragment> = Vec::new();
        if colorize {
            let color = get_time_based_color(
                Color::Yellow,
                Color::Magenta,
                self.hour,
                self.day_start,
                self.night_start,
            );
            spans.push(span.fg(color));
        } else {
            spans.push(span);
        }
        assert(fragment_views(spans@) =~= self@.rendered(colorize));
        spans
    }
}

impl Clone for Time {
    fn clone(&self) -> (copy: Time)
        ensures
            copy == *self,
    {
        Time {
            time_string: self.time_string.clone(),
            cached_span_content: self.cached_span_content.clone(),
            day_start: self.day_start,
            night_start: self.night_start,
            hour: self.hour,
        }
    }
}

impl ConfigurableComponent for Time {
    /// A clock reads `day_start` and `night_start`, two hours that fit in a
    /// byte, with 6 and 18 as defaults.
    open spec fn from_settings(settings: JsonView, now: u64) -> Option<TimeView> {
        let day = settings.unsigned_setting("day_start"@, 255);
        let night = settings.unsigned_setting("night_start"@, 255);
        if day is Mismatch || night is Mismatch {
            None
        } else {
            Some(TimeView::configured(day.or(6) as u8, night.or(18) as u8, Seq::empty(), 0))
        }
    }

    fn from_config(settings: &serde_json::Value, now: u64) -> (built: Option<Time>) {
        let day = read_unsigned(settings, "day_start", 255);
        let night = read_unsigned(settings, "night_start", 255);
        if day.is_mismatch() || night.is_mismatch() {
            None
        } else {
            let blank = String::new();
            Some(
                Time::with_config(
                    day.value_or(default_day_start() as u64) as u8,
                    night.value_or(default_night_start() as u64) as u8,
                    blank.as_str(),
                    0,
                ),
            )
        }
    }
}

} // verus!
