//! The status line: brightness, volume and battery.

use vstd::prelude::*;
use vstd::string::*;
use crate::style::{fragment_views, Fragment, FragmentView};
use crate::text::{has_infix, signed_decimal_string, signed_decimal_text};

verus! {

/// What the `regex` crate finds first in `text` for `pattern`: `None` where
/// the pattern does not compile, `Some(None)` where nothing matches, else
/// the leftmost match.
pub uninterp spec fn regex_first_match(pattern: Seq<char>, text: Seq<char>) -> Option<
    Option<Seq<char>>,
>;

/// The view of a search result.
pub open spec fn search_view(found: Option<Option<String>>) -> Option<Option<Seq<char>>> {
    match found {
        Some(Some(m)) => Some(Some(m@)),
        Some(None) => Some(None),
        None => None,
    }
}

/// Calls `Regex::new` and `Regex::find`. Trusted: the outcome depends on
/// the pattern and the text alone, and a match is a part of the text.
#[verifier::external_body]
fn regex_find(pattern: &str, text: &str) -> (found: Option<Option<String>>)
    ensures
        search_view(found) == regex_first_match(pattern@, text@),
        found matches Some(Some(m)) ==> has_infix(text@, m@),
{
    match regex::Regex::new(pattern) {
        Ok(re) => Some(re.find(text).map(|m| m.as_str().to_string())),
        Err(_) => None,
    }
}

/// The brightness in the report of the backlight tool: the first run of
/// digits that a percent sign follows.
pub open spec fn brightness_in(report: Seq<char>) -> Option<Seq<char>> {
    match regex_first_match("\\d+%"@, report) {
        Some(Some(m)) => Some(m),
        _ => None,
    }
}

/// Picks the brightness out of the report of the backlight tool.
pub fn parse_brightness(report: &str) -> (brightness: Option<String>)
    ensures
        match brightness {
            Some(b) => brightness_in(report@) == Some(b@) && has_infix(report@, b@),
            None => brightness_in(report@).is_none(),
        },
{
    match regex_find("\\d+%", report) {
        Some(Some(m)) => Some(m),
        _ => None,
    }
}

/// The status line.
#[derive(Debug)]
pub struct StatusBar {
    pub volume: String,
    pub brightness: String,
    pub bat_percent: String,
}

/// The state of the status line.
pub struct StatusBarView {
    pub volume: Seq<char>,
    pub brightness: Seq<char>,
    pub bat_percent: Seq<char>,
}

impl View for StatusBar {
    type V = StatusBarView;

    open spec fn view(&self) -> StatusBarView {
        StatusBarView {
            volume: self.volume@,
            brightness: self.brightness@,
            bat_percent: self.bat_percent@,
        }
    }
}

impl StatusBarView {
    /// The status line for a reading: a volume that is not known counts as
    /// 0, a brightness that is not known as empty.
    pub open spec fn reading(
        volume: Option<i32>,
        brightness: Option<Seq<char>>,
        battery_percent: i32,
    ) -> StatusBarView {
        StatusBarView {
            volume: signed_decimal_text(
                match volume {
                    Some(v) => v as int,
                    None => 0,
                },
            ),
            brightness: match brightness {
                Some(b) => b,
                None => Seq::empty(),
            },
            bat_percent: signed_decimal_text(battery_percent as int),
        }
    }

    /// The fragments of the status line.
    pub open spec fn rendered(self) -> Seq<FragmentView> {
        seq![
            FragmentView::raw(" | "@),
            FragmentView::raw("󰃠 "@),
            FragmentView::raw(self.brightness),
            FragmentView::raw(" "@),
            FragmentView::raw("󰕾 "@),
            FragmentView::raw(self.volume + "%"@),
            FragmentView::raw(" | "@),
            FragmentView::raw("󰁹 "@),
            FragmentView::raw(self.bat_percent + "%"@),
            FragmentView::raw(" "@),
        ]
    }
}

impl StatusBar {
    /// The status line for a first reading.
    pub fn new(volume: Option<i32>, brightness: Option<String>, battery_percent: i32) -> (bar: StatusBar)
        ensures
            bar@ == StatusBarView::reading(
                volume,
                match brightness {
                    Some(b) => Some(b@),
                    None => None,
                },
                battery_percent,
            ),
    {
        let volume = match volume {
            Some(v) => v,
            None => 0,
        };
        StatusBar {
            volume: signed_decimal_string(volume as i64),
            brightness: match brightness {
                Some(b) => b,
                None => String::new(),
            },
            bat_percent: signed_decimal_string(battery_percent as i64),
        }
    }

    /// Takes a new reading.
    pub fn update(&mut self, volume: Option<i32>, brightness: Option<String>, battery_percent: i32)
        ensures
            final(self)@ == StatusBarView::reading(
                volume,
                match brightness {
                    Some(b) => Some(b@),
                    None => None,
                },
                battery_percent,
            ),
    {
        let volume = match volume {
            Some(v) => v,
            None => 0,
        };
        self.volume = signed_decimal_string(volume as i64);
        self.brightness = match brightness {
            Some(b) => b,
            None => String::new(),
        };
        self.bat_percent = signed_decimal_string(battery_percent as i64);
    }

    /// Renders the status line.
    pub fn render(&self) -> (spans: Vec<Fragment>)
        ensures
            fragment_views(spans@) == self@.rendered(),
    {
        let mut spans: Vec<Fragment> = Vec::new();
        spans.push(Fragment::text(" | "));
        spans.push(Fragment::text("󰃠 "));
        spans.push(Fragment::text(self.brightness.as_str()));
        spans.push(Fragment::text(" "));
        spans.push(Fragment::text("󰕾 "));
        spans.push(Fragment::percent(self.volume.as_str()));
        spans.push(Fragment::text(" | "));
        spans.push(Fragment::text("󰁹 "));
        spans.push(Fragment::percent(self.bat_percent.as_str()));
        spans.push(Fragment::text(" "));
        assert(fragment_views(spans@) =~= self@.rendered());
        spans
    }
}

} // verus!
