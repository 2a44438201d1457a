//! The configuration document: its regions, its entries and the typed
//! settings that components read from an entry.

use vstd::prelude::*;
use crate::json::{
    as_flag, as_items, as_text, as_unsigned, is_null, is_object, json_content, json_contents, member,
    JsonView,
};
use crate::text::{chars_of, equals};

verus! {

/// One of the three zones of the bar.
#[derive(Debug, Clone, Copy, PartialEq, Eq, Structural)]
pub enum Region {
    Left,
    Middle,
    Right,
}

/// Why a configuration was refused.
#[derive(Debug, Clone, Copy, PartialEq, Eq, Structural)]
pub enum ConfigError {
    /// The text is not a JSON document.
    Malformed,
    /// The document is not an object.
    NotAnObject,
    /// `colorize` is there and is not a boolean.
    BadColorize,
    /// The entry list of this region is there and is not an array.
    BadRegion(Region),
    /// The entry at this position of this region names a configurable
    /// component, and its settings do not have the shape that the component
    /// expects.
    Construction(Region, usize),
}

/// A setting of an entry, read with the type that a component expects.
#[derive(Debug, Clone, PartialEq, Eq)]
pub enum Setting<T> {
    /// The entry does not have the setting: the component's default holds.
    Absent,
    /// The entry has the setting with this value.
    Given(T),
    /// The entry has the setting, with a value of another type or out of
    /// range.
    Mismatch,
}

impl<T> Setting<T> {
    /// The value of the setting, or `default` where the entry does not have
    /// it.
    pub open spec fn or(self, default: T) -> T {
        match self {
            Setting::Given(v) => v,
            _ => default,
        }
    }

    /// The value of the setting, or `default` where the entry does not have
    /// it.
    pub fn value_or(self, default: T) -> (value: T)
        ensures
            value == self.or(default),
    {
        match self {
            Setting::Given(v) => v,
            _ => default,
        }
    }

    /// Whether the setting is there with a value that does not fit.
    pub fn is_mismatch(&self) -> (mismatch: bool)
        ensures
            mismatch == (*self is Mismatch),
    {
        match self {
            Setting::Mismatch => true,
            _ => false,
        }
    }
}

impl Region {
    /// The key under which the document lists the entries of the region.
    pub open spec fn key(self) -> Seq<char> {
        match self {
            Region::Left => "left"@,
            Region::Middle => "middle"@,
            Region::Right => "right"@,
        }
    }

    /// The region that a name stands for.
    pub open spec fn named(name: Seq<char>) -> Option<Region> {
        if name == "left"@ {
            Some(Region::Left)
        } else if name == "middle"@ {
            Some(Region::Middle)
        } else if name == "right"@ {
            Some(Region::Right)
        } else {
            None
        }
    }

    /// The key under which the document lists the entries of the region.
    pub fn name(self) -> (name: &'static str)
        ensures
            name@ == self.key(),
    {
        match self {
            Region::Left => "left",
            Region::Middle => "middle",
            Region::Right => "right",
        }
    }

    /// Reads a region's name: `left`, `middle` or `right`.
    pub fn from_name(name: &str) -> (region: Option<Region>)
        ensures
            region == Region::named(name@),
    {
        let chars = chars_of(name);
        if equals(&chars, "left") {
            Some(Region::Left)
        } else if equals(&chars, "middle") {
            Some(Region::Middle)
        } else if equals(&chars, "right") {
            Some(Region::Right)
        } else {
            None
        }
    }
}

/// Each region is found under its own name.
pub proof fn lemma_region_names()
    ensures
        Region::named("left"@) == Some(Region::Left),
        Region::named("middle"@) == Some(Region::Middle),
        Region::named("right"@) == Some(Region::Right),
        forall|region: Region| Region::named(region.key()) == Some(region),
{
    reveal_strlit("left");
    reveal_strlit("middle");
    reveal_strlit("right");
    assert("left"@.len() == 4 && "middle"@.len() == 6 && "right"@.len() == 5);
}

impl JsonView {
    /// The boolean setting `key`.
    pub open spec fn flag_setting(self, key: Seq<char>) -> Setting<bool> {
        match self.member(key) {
            None => Setting::Absent,
            Some(v) => match v.flag() {
                Some(b) => Setting::Given(b),
                None => Setting::Mismatch,
            },
        }
    }

    /// The setting `key` as a whole number from 0 to `max`.
    pub open spec fn unsigned_setting(self, key: Seq<char>, max: u64) -> Setting<u64> {
        match self.member(key) {
            None => Setting::Absent,
            Some(v) => match v.unsigned() {
                Some(n) => if n <= max {
                    Setting::Given(n)
                } else {
                    Setting::Mismatch
                },
                None => Setting::Mismatch,
            },
        }
    }

    /// The text setting `key`; `null` counts as absent.
    pub open spec fn text_setting(self, key: Seq<char>) -> Setting<Seq<char>> {
        match self.member(key) {
            None => Setting::Absent,
            Some(v) => if v.is_null() {
                Setting::Absent
            } else {
                match v.text() {
                    Some(t) => Setting::Given(t),
                    None => Setting::Mismatch,
                }
            },
        }
    }

    /// The name of the component that an entry asks for: its text member
    /// `component`, and `unknown` where it has none.
    pub open spec fn component_name(self) -> Seq<char> {
        match self.member("component"@) {
            Some(v) => match v.text() {
                Some(name) => name,
                None => "unknown"@,
            },
            None => "unknown"@,
        }
    }

    /// Whether colours are on: the boolean member `colorize`, on where the
    /// document does not say.
    pub open spec fn colorize(self) -> Result<bool, ConfigError> {
        match self.flag_setting("colorize"@) {
            Setting::Absent => Ok(true),
            Setting::Given(b) => Ok(b),
            Setting::Mismatch => Err(ConfigError::BadColorize),
        }
    }

    /// The entries of a region, in document order: the array under the
    /// region's key, and no entries where the document has no such member.
    pub open spec fn entries(self, region: Region) -> Result<Seq<JsonView>, ConfigError> {
        match self.member(region.key()) {
            None => Ok(Seq::empty()),
            Some(v) => match v.items() {
                Some(list) => Ok(list),
                None => Err(ConfigError::BadRegion(region)),
            },
        }
    }
}

/// The view of a text setting.
pub open spec fn text_setting_view(setting: Setting<String>) -> Setting<Seq<char>> {
    match setting {
        Setting::Absent => Setting::Absent,
        Setting::Given(t) => Setting::Given(t@),
        Setting::Mismatch => Setting::Mismatch,
    }
}

/// Reads a boolean setting of an entry.
pub fn read_flag(entry: &serde_json::Value, key: &str) -> (setting: Setting<bool>)
    ensures
        setting == json_content(*entry).flag_setting(key@),
{
    match member(entry, key) {
        None => Setting::Absent,
        Some(v) => match as_flag(v) {
            Some(b) => Setting::Given(b),
            None => Setting::Mismatch,
        },
    }
}

/// Reads a setting of an entry as a whole number from 0 to `max`.
pub fn read_unsigned(entry: &serde_json::Value, key: &str, max: u64) -> (setting: Setting<u64>)
    ensures
        setting == json_content(*entry).unsigned_setting(key@, max),
{
    match member(entry, key) {
        None => Setting::Absent,
        Some(v) => match as_unsigned(v) {
            Some(n) => if n <= max {
                Setting::Given(n)
            } else {
                Setting::Mismatch
            },
            None => Setting::Mismatch,
        },
    }
}

/// Reads a text setting of an entry.
pub fn read_text(entry: &serde_json::Value, key: &str) -> (setting: Setting<String>)
    ensures
        text_setting_view(setting) == json_content(*entry).text_setting(key@),
{
    match member(entry, key) {
        None => Setting::Absent,
        Some(v) => if is_null(v) {
            Setting::Absent
        } else {
            match as_text(v) {
                Some(t) => Setting::Given(t.to_owned()),
                None => Setting::Mismatch,
            }
        },
    }
}

/// Reads whether colours are on.
pub fn read_colorize(document: &serde_json::Value) -> (colorize: Result<bool, ConfigError>)
    ensures
        colorize == json_content(*document).colorize(),
{
    match read_flag(document, "colorize") {
        Setting::Absent => Ok(true),
        Setting::Given(b) => Ok(b),
        Setting::Mismatch => Err(ConfigError::BadColorize),
    }
}

/// Reads the entries of a region. `None` stands for a region that the
/// document does not mention, which has no entries.
pub fn read_entries<'a>(document: &'a serde_json::Value, region: Region) -> (entries: Result<
    Option<&'a Vec<serde_json::Value>>,
    ConfigError,
>)
    ensures
        match entries {
            Ok(Some(list)) => json_content(*document).entries(region) == Ok::<
                Seq<JsonView>,
                ConfigError,
            >(json_contents(list@)),
            Ok(None) => json_content(*document).entries(region) == Ok::<Seq<JsonView>, ConfigError>(
                Seq::empty(),
            ),
            Err(e) => json_content(*document).entries(region) == Err::<Seq<JsonView>, ConfigError>(e),
        },
{
    match member(document, region.name()) {
        None => Ok(None),
        Some(v) => match as_items(v) {
            Some(list) => Ok(Some(list)),
            None => Err(ConfigError::BadRegion(region)),
        },
    }
}

/// Whether the document is an object, as a configuration has to be.
pub fn is_configuration(document: &serde_json::Value) -> (object: bool)
    ensures
        object == json_content(*document).is_object(),
{
    is_object(document)
}

} // verus!
