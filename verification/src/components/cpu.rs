//! The processor gauge.

use vstd::prelude::*;
use vstd::string::*;
use crate::components::sparkline::{blanks, render_sparkline, repeat_blank, sparkline_text};
use crate::components::ConfigurableComponent;
use crate::config::{read_flag, read_unsigned, Setting};
use crate::json::{json_content, JsonView};
use crate::style::{fragment_views, Color, Fragment, FragmentView};
use crate::text::{
    chars_of, decimal_string, decimal_text, lemma_parse_decimal, parse_u32, parsed_u32,
};

verus! {

/// A gauge of processor load, as a percentage or as a row of bars.
#[derive(Debug)]
pub struct Cpu {
    pub usage: String,
    pub cached_span_content: String,
    /// When the gauge last took a sample, in milliseconds of a clock that
    /// never runs backwards.
    pub last_update: u64,
    /// The shortest time between two samples, in seconds.
    pub update_interval: u64,
    pub sparkline: bool,
    pub sparkline_length: usize,
    pub sparkline_data: Vec<u32>,
}

/// The state of a processor gauge.
pub struct CpuView {
    pub usage: Seq<char>,
    pub cached_span_content: Seq<char>,
    pub last_update: u64,
    pub update_interval: u64,
    pub sparkline: bool,
    pub sparkline_length: usize,
    pub sparkline_data: Seq<u32>,
}

impl View for Cpu {
    type V = CpuView;

    open spec fn view(&self) -> CpuView {
        CpuView {
            usage: self.usage@,
            cached_span_content: self.cached_span_content@,
            last_update: self.last_update,
            update_interval: self.update_interval,
            sparkline: self.sparkline,
            sparkline_length: self.sparkline_length,
            sparkline_data: self.sparkline_data@,
        }
    }
}

impl CpuView {
    /// A gauge that has not sampled yet: it shows 0, or blank bars.
    pub open spec fn configured(
        sparkline: bool,
        sparkline_length: usize,
        sparkline_update_freq: u64,
        now: u64,
    ) -> CpuView {
        CpuView {
            usage: "0"@,
            cached_span_content: if sparkline {
                "󰻠 "@ + blanks(sparkline_length as nat)
            } else {
                "󰻠 "@ + "0"@ + "%"@
            },
            last_update: now,
            update_interval: sparkline_update_freq,
            sparkline,
            sparkline_length,
            sparkline_data: Seq::new(sparkline_length as nat, |i: int| 0u32),
        }
    }

    /// Whether a sample is due at `now`: at least `update_interval` whole
    /// seconds have passed since the last one.
    pub open spec fn due(self, now: u64) -> bool {
        now >= self.last_update && (now - self.last_update) / 1000 >= self.update_interval
    }

    /// The history after the sample `percent`: the oldest sample leaves and
    /// the new one joins at the end. A gauge without a history keeps none.
    pub open spec fn shifted(self, percent: u32) -> Seq<u32> {
        if self.sparkline_data.len() > 0 {
            self.sparkline_data.drop_first().push(percent)
        } else {
            self.sparkline_data
        }
    }

    /// The gauge after a reading of `percent` at `now`. A reading that is
    /// not due changes nothing.
    pub open spec fn updated(self, now: u64, percent: u32) -> CpuView {
        if !self.due(now) {
            self
        } else if self.sparkline {
            CpuView {
                usage: decimal_text(percent as nat),
                cached_span_content: "󰻠 "@ + sparkline_text(
                    self.shifted(percent),
                    self.sparkline_length as nat,
                ),
                last_update: now,
                sparkline_data: self.shifted(percent),
                ..self
            }
        } else {
            CpuView {
                usage: decimal_text(percent as nat),
                cached_span_content: "󰻠 "@ + decimal_text(percent as nat) + "%"@,
                last_update: now,
                ..self
            }
        }
    }

    /// The colour of the gauge: red from 90 percent on, white below and
    /// where the usage is not a number.
    pub open spec fn color(self) -> Color {
        match parsed_u32(self.usage) {
            Some(usage) => if usage >= 90 {
                Color::Red
            } else {
                Color::White
            },
            None => Color::White,
        }
    }

    /// What the gauge renders: its cached text, coloured where colours are
    /// on.
    pub open spec fn rendered(self, colorize: bool) -> Seq<FragmentView> {
        let span = FragmentView::raw(self.cached_span_content);
        if colorize {
            seq![span.fg(self.color())]
        } else {
            seq![span]
        }
    }
}

impl Cpu {
    /// A percentage gauge that samples every three seconds.
    pub fn new(now: u64) -> (gauge: Cpu)
        ensures
            gauge@ == CpuView::configured(false, 10, 3, now),
    {
        Cpu::with_config(false, 10, 3, now)
    }

    /// A gauge with the given settings, created at `now`.
    pub fn with_config(
        sparkline: bool,
        sparkline_length: usize,
        sparkline_update_freq: u64,
        now: u64,
    ) -> (gauge: Cpu)
        ensures
            gauge@ == CpuView::configured(sparkline, sparkline_length, sparkline_update_freq, now),
    {
        let usage = String::from_str("0");
        let mut cached_span_content = String::from_str("󰻠 ");
        if sparkline {
            let sparkline_str = repeat_blank(sparkline_length);
            cached_span_content.append(sparkline_str.as_str());
        } else {
            cached_span_content.append(usage.as_str());
            cached_span_content.append("%");
        }
        let mut sparkline_data: Vec<u32> = Vec::new();
        let mut i: usize = 0;
        while i < sparkline_length
            invariant
                i <= sparkline_length,
                sparkline_data@ == Seq::new(i as nat, |k: int| 0u32),
            decreases sparkline_length - i,
        {
            sparkline_data.push(0);
            i += 1;
            assert(sparkline_data@ =~= Seq::new(i as nat, |k: int| 0u32));
        }
        Cpu {
            usage,
            cached_span_content,
            last_update: now,
            update_interval: sparkline_update_freq,
            sparkline,
            sparkline_length,
            sparkline_data,
        }
    }

    /// Takes the reading `percent`, sampled at `now`, if one is due.
    pub fn update(&mut self, now: u64, percent: u32)
        ensures
            final(self)@ == old(self)@.updated(now, percent),
    {
        if now >= self.last_update && (now - self.last_update) / 1000 >= self.update_interval {
            self.usage = decimal_string(percent as u64);
            let mut content = String::from_str("󰻠 ");
            if self.sparkline {
                if self.sparkline_data.len() > 0 {
                    self.sparkline_data.remove(0);
                    self.sparkline_data.push(percent);
                }
                assert(self.sparkline_data@ =~= old(self)@.shifted(percent));
                let sparkline_str = self.render_sparkline();
                content.append(sparkline_str.as_str());
            } else {
                content.append(self.usage.as_str());
                content.append("%");
            }
            self.cached_span_content = content;
            self.last_update = now;
        }
    }

    /// Renders the gauge as one fragment.
    pub fn render_as_spans(&self, colorize: bool) -> (spans: Vec<Fragment>)
        ensures
            fragment_views(spans@) == self@.rendered(colorize),
    {
        let span = Fragment::raw(self.cached_span_content.clone());
        let mut spans: Vec<Fragment> = Vec::new();
        if colorize {
            let digits = chars_of(self.usage.as_str());
            let color = match parse_u32(&digits) {
                Some(usage) => if usage >= 90 {
                    Color::Red
                } else {
                    Color::White
                },
                None => Color::White,
            };
            spans.push(span.fg(color));
        } else {
            spans.push(span);
        }
        assert(fragment_views(spans@) =~= self@.rendered(colorize));
        spans
    }

    fn render_sparkline(&self) -> (row: String)
        ensures
            row@ == sparkline_text(self@.sparkline_data, self@.sparkline_length as nat),
    {
        render_sparkline(&self.sparkline_data, self.sparkline_length)
    }
}

/// A gauge that took a reading shows it: after a reading that was due, the
/// usage is the numeral of the percentage, and the gauge is red exactly
/// from 90 percent on.
pub proof fn lemma_color_follows_reading(gauge: CpuView, now: u64, percent: u32)
    requires
        gauge.due(now),
    ensures
        gauge.updated(now, percent).usage == decimal_text(percent as nat),
        gauge.updated(now, percent).color() == if percent >= 90 {
            Color::Red
        } else {
            Color::White
        },
{
    lemma_parse_decimal(percent);
}

impl Clone for Cpu {
    fn clone(&self) -> (copy: Cpu)
        ensures
            copy@ == self@,
    {
        Cpu {
            usage: self.usage.clone(),
            cached_span_content: self.cached_span_content.clone(),
            last_update: self.last_update,
            update_interval: self.update_interval,
            sparkline: self.sparkline,
            sparkline_length: self.sparkline_length,
            sparkline_data: self.sparkline_data.clone(),
        }
    }
}

impl ConfigurableComponent for Cpu {
    /// A gauge reads `sparkline`, a boolean that is off by default;
    /// `sparkline_length`, a count with 10 as default; and
    /// `sparkline_update_freq`, a number of seconds with 3 as default. Bars
    /// need a length above 0.
    open spec fn from_settings(settings: JsonView, now: u64) -> Option<CpuView> {
        let sparkline = settings.flag_setting("sparkline"@);
        let length = settings.unsigned_setting("sparkline_length"@, usize::MAX as u64);
        let freq = settings.unsigned_setting("sparkline_update_freq"@, u64::MAX);
        if sparkline is Mismatch || length is Mismatch || freq is Mismatch {
            None
        } else if sparkline.or(false) && length.or(10) == 0 {
            None
        } else {
            Some(CpuView::configured(sparkline.or(false), length.or(10) as usize, freq.or(3), now))
        }
    }

    fn from_config(settings: &serde_json::Value, now: u64) -> (built: Option<Cpu>) {
        let sparkline = read_flag(settings, "sparkline");
        let length = read_unsigned(settings, "sparkline_length", usize::MAX as u64);
        let freq = read_unsigned(settings, "sparkline_update_freq", u64::MAX);
        if sparkline.is_mismatch() || length.is_mismatch() || freq.is_mismatch() {
            return None;
        }
        let sparkline = sparkline.value_or(false);
        let length = length.value_or(10);
        if sparkline && length == 0 {
            return None;
        }
        Some(Cpu::with_config(sparkline, length as usize, freq.value_or(3), now))
    }
}

} // verus!
