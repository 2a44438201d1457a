//! The component manager: the live components of the three regions, how
//! they are built from a configuration, updated from readings and replaced
//! on reload.

use vstd::prelude::*;
use crate::click::{click_area_views, ClickArea, ClickAreaView};
use crate::components::cpu::{Cpu, CpuView};
use crate::components::kitty_tabs::{optional_tab_views, KittyTabs, KittyTabsView, TabInfo, TabView};
use crate::components::ram::{Ram, RamView};
use crate::components::time::{Time, TimeView};
use crate::components::windows::{reading_view, WindowInfo, WindowInfoView, Windows, WindowsView};
use crate::components::{created, ComponentKind, ConfigurableComponentRegistry, FactoryError};
use crate::config::{is_configuration, read_colorize, read_entries, ConfigError, Region};
use crate::json::{json_content, json_contents, parse, parsed_json, JsonView};
use crate::lua_component::{
    run_view, LuaComponent, LuaComponentRegistry, LuaComponentView, ScriptInspection, ScriptLoadError,
};
use crate::style::{fragment_views, Fragment, FragmentView};
use crate::text::{chars_of, equals};

verus! {

/// One visual widget of the bar.
#[derive(Debug)]
pub enum Component {
    Time(Time),
    Cpu(Cpu),
    Ram(Ram),
    KittyTabs(KittyTabs),
    Windows(Windows),
    Script(LuaComponent),
}

/// The state of a component.
pub enum ComponentView {
    Time(TimeView),
    Cpu(CpuView),
    Ram(RamView),
    KittyTabs(KittyTabsView),
    Windows(WindowsView),
    Script(LuaComponentView),
}

impl View for Component {
    type V = ComponentView;

    open spec fn view(&self) -> ComponentView {
        match self {
            Component::Time(c) => ComponentView::Time(c@),
            Component::Cpu(c) => ComponentView::Cpu(c@),
            Component::Ram(c) => ComponentView::Ram(c@),
            Component::KittyTabs(c) => ComponentView::KittyTabs(c@),
            Component::Windows(c) => ComponentView::Windows(c@),
            Component::Script(c) => ComponentView::Script(c@),
        }
    }
}

/// What was sampled for one component since the last tick.
#[derive(Debug)]
pub enum Reading {
    /// The formatted local time and its hour of the day.
    Clock { text: String, hour: u32 },
    /// A load in percent, sampled at `now` milliseconds of a clock that
    /// never runs backwards.
    Load { now: u64, percent: u32 },
    /// The focused terminal and its tabs, where there are any.
    Tabs { kitty_pid: Option<u32>, tabs: Option<Vec<TabInfo>> },
    /// The windows to show and the address of the focused one, where the
    /// window manager answered.
    Windows(Option<(Vec<WindowInfo>, String)>),
    /// What a script rendered, or `None` where its run failed.
    Script(Option<Vec<Fragment>>),
    /// The sampling failed.
    Failed,
}

/// A reading by content.
pub enum ReadingView {
    Clock { text: Seq<char>, hour: u32 },
    Load { now: u64, percent: u32 },
    Tabs { kitty_pid: Option<u32>, tabs: Option<Seq<TabView>> },
    Windows(Option<(Seq<WindowInfoView>, Seq<char>)>),
    Script(Option<Seq<FragmentView>>),
    Failed,
}

impl View for Reading {
    type V = ReadingView;

    open spec fn view(&self) -> ReadingView {
        match self {
            Reading::Clock { text, hour } => ReadingView::Clock { text: text@, hour: *hour },
            Reading::Load { now, percent } => ReadingView::Load { now: *now, percent: *percent },
            Reading::Tabs { kitty_pid, tabs } => ReadingView::Tabs {
                kitty_pid: *kitty_pid,
                tabs: optional_tab_views(*tabs),
            },
            Reading::Windows(reading) => ReadingView::Windows(reading_view(*reading)),
            Reading::Script(run) => ReadingView::Script(run_view(*run)),
            Reading::Failed => ReadingView::Failed,
        }
    }
}

/// What has to be sampled for a component before it is updated.
#[derive(Debug, Clone, Copy, PartialEq, Eq, Structural)]
pub enum Probe {
    Clock,
    CpuLoad,
    MemoryLoad,
    Tabs,
    Windows,
    Script,
}

impl ComponentView {
    /// The reading that the component takes.
    pub open spec fn probe(self) -> Probe {
        match self {
            ComponentView::Time(_) => Probe::Clock,
            ComponentView::Cpu(_) => Probe::CpuLoad,
            ComponentView::Ram(_) => Probe::MemoryLoad,
            ComponentView::KittyTabs(_) => Probe::Tabs,
            ComponentView::Windows(_) => Probe::Windows,
            ComponentView::Script(_) => Probe::Script,
        }
    }

    /// The component after a reading. A reading of the component's own
    /// kind is taken in. Any other reading counts as a failure, and a
    /// failure degrades the display: a clock and a gauge keep what they
    /// show, a tab list, a window list and a script show nothing.
    pub open spec fn updated(self, reading: ReadingView) -> ComponentView {
        match self {
            ComponentView::Time(c) => match reading {
                ReadingView::Clock { text, hour } => ComponentView::Time(c.updated(text, hour)),
                _ => self,
            },
            ComponentView::Cpu(c) => match reading {
                ReadingView::Load { now, percent } => ComponentView::Cpu(c.updated(now, percent)),
                _ => self,
            },
            ComponentView::Ram(c) => match reading {
                ReadingView::Load { now, percent } => ComponentView::Ram(c.updated(now, percent)),
                _ => self,
            },
            ComponentView::KittyTabs(c) => match reading {
                ReadingView::Tabs { kitty_pid, tabs } => ComponentView::KittyTabs(
                    c.updated(kitty_pid, tabs),
                ),
                _ => ComponentView::KittyTabs(c.updated(None, None)),
            },
            ComponentView::Windows(c) => match reading {
                ReadingView::Windows(r) => ComponentView::Windows(WindowsView::configured(r)),
                _ => ComponentView::Windows(WindowsView::configured(None)),
            },
            ComponentView::Script(c) => match reading {
                ReadingView::Script(run) => ComponentView::Script(c.updated(run)),
                _ => ComponentView::Script(c.updated(None)),
            },
        }
    }

    /// Whether `reading` lets the component refresh: it is of the
    /// component's kind, and a script's run did not fail.
    pub open spec fn accepts(self, reading: ReadingView) -> bool {
        match (self, reading) {
            (ComponentView::Time(_), ReadingView::Clock { .. }) => true,
            (ComponentView::Cpu(_), ReadingView::Load { .. }) => true,
            (ComponentView::Ram(_), ReadingView::Load { .. }) => true,
            (ComponentView::KittyTabs(_), ReadingView::Tabs { .. }) => true,
            (ComponentView::Windows(_), ReadingView::Windows(_)) => true,
            (ComponentView::Script(_), ReadingView::Script(run)) => run.is_some(),
            _ => false,
        }
    }

    /// The fragments that the component renders, from left to right.
    pub open spec fn rendered(self, colorize: bool) -> Seq<FragmentView> {
        match self {
            ComponentView::Time(c) => c.rendered(colorize),
            ComponentView::Cpu(c) => c.rendered(colorize),
            ComponentView::Ram(c) => c.rendered(colorize),
            ComponentView::KittyTabs(c) => c.rendered(colorize),
            ComponentView::Windows(c) => c.rendered(),
            ComponentView::Script(c) => c.spans,
        }
    }

    /// The click regions of the component when it is laid out from
    /// `(origin_x, origin_y)`.
    pub open spec fn click_areas(self, origin_x: u16, origin_y: u16) -> Seq<ClickAreaView> {
        match self {
            ComponentView::Windows(c) => c.click_areas(origin_x, origin_y),
            _ => Seq::empty(),
        }
    }
}

impl Component {
    /// The reading that the component takes.
    pub fn probe(&self) -> (probe: Probe)
        ensures
            probe == self@.probe(),
    {
        match self {
            Component::Time(_) => Probe::Clock,
            Component::Cpu(_) => Probe::CpuLoad,
            Component::Ram(_) => Probe::MemoryLoad,
            Component::KittyTabs(_) => Probe::Tabs,
            Component::Windows(_) => Probe::Windows,
            Component::Script(_) => Probe::Script,
        }
    }

    /// Takes a reading. Returns whether the reading let the component
    /// refresh; one that did not is absorbed into what the component
    /// shows.
    pub fn update(&mut self, reading: Reading) -> (refreshed: bool)
        ensures
            final(self)@ == old(self)@.updated(reading@),
            refreshed == old(self)@.accepts(reading@),
    {
        match self {
            Component::Time(c) => match reading {
                Reading::Clock { text, hour } => {
                    c.update(text.as_str(), hour);
                    true
                },
                _ => false,
            },
            Component::Cpu(c) => match reading {
                Reading::Load { now, percent } => {
                    c.update(now, percent);
                    true
                },
                _ => false,
            },
            Component::Ram(c) => match reading {
                Reading::Load { now, percent } => {
                    c.update(now, percent);
                    true
                },
                _ => false,
            },
            Component::KittyTabs(c) => match reading {
                Reading::Tabs { kitty_pid, tabs } => {
                    c.update(kitty_pid, tabs);
                    true
                },
                _ => {
                    c.update(None, None);
                    false
                },
            },
            Component::Windows(c) => match reading {
                Reading::Windows(r) => {
                    c.update(r);
                    true
                },
                _ => {
                    c.update(None);
                    false
                },
            },
            Component::Script(c) => match reading {
                Reading::Script(run) => {
                    let ran = run.is_some();
                    c.update(run);
                    ran
                },
                _ => {
                    c.update(None);
                    false
                },
            },
        }
    }

    /// Renders the component.
    pub fn render_as_spans_with_colorize(&self, colorize: bool) -> (spans: Vec<Fragment>)
        ensures
            fragment_views(spans@) == self@.rendered(colorize),
    {
        match self {
            Component::Time(c) => c.render_as_spans(colorize),
            Component::Cpu(c) => c.render_as_spans(colorize),
            Component::Ram(c) => c.render_as_spans(colorize),
            Component::KittyTabs(c) => c.render_as_spans(colorize),
            Component::Windows(c) => c.render(),
            Component::Script(c) => c.render_as_spans_with_colorize(colorize),
        }
    }

    /// Renders the component from `(origin_x, origin_y)`: its fragments, and
    /// its click regions in absolute cells.
    pub fn render_as_spans_with_bounds_and_colorize(
        &self,
        colorize: bool,
        origin_x: u16,
        origin_y: u16,
    ) -> (out: (Vec<Fragment>, Vec<ClickArea>))
        ensures
            fragment_views(out.0@) == self@.rendered(colorize),
            click_area_views(out.1@) == self@.click_areas(origin_x, origin_y),
    {
        match self {
            Component::Windows(c) => c.render_with_bounds(origin_x, origin_y),
            _ => {
                let spans = self.render_as_spans_with_colorize(colorize);
                let areas: Vec<ClickArea> = Vec::new();
                assert(click_area_views(areas@) =~= Seq::empty());
                (spans, areas)
            },
        }
    }
}

impl From<Time> for Component {
    fn from(component: Time) -> (wrapped: Component) {
        Component::Time(component)
    }
}

impl vstd::std_specs::convert::FromSpecImpl<Time> for Component {
    open spec fn obeys_from_spec() -> bool {
        true
    }

    open spec fn from_spec(component: Time) -> Component {
        Component::Time(component)
    }
}

impl From<Cpu> for Component {
    fn from(component: Cpu) -> (wrapped: Component) {
        Component::Cpu(component)
    }
}

impl vstd::std_specs::convert::FromSpecImpl<Cpu> for Component {
    open spec fn obeys_from_spec() -> bool {
        true
    }

    open spec fn from_spec(component: Cpu) -> Component {
        Component::Cpu(component)
    }
}

impl From<Ram> for Component {
    fn from(component: Ram) -> (wrapped: Component) {
        Component::Ram(component)
    }
}

impl vstd::std_specs::convert::FromSpecImpl<Ram> for Component {
    open spec fn obeys_from_spec() -> bool {
        true
    }

    open spec fn from_spec(component: Ram) -> Component {
        Component::Ram(component)
    }
}

impl From<KittyTabs> for Component {
    fn from(component: KittyTabs) -> (wrapped: Component) {
        Component::KittyTabs(component)
    }
}

impl vstd::std_specs::convert::FromSpecImpl<KittyTabs> for Component {
    open spec fn obeys_from_spec() -> bool {
        true
    }

    open spec fn from_spec(component: KittyTabs) -> Component {
        Component::KittyTabs(component)
    }
}

impl Clone for Component {
    fn clone(&self) -> (copy: Component)
        ensures
            copy@ == self@,
    {
        match self {
            Component::Time(c) => Component::Time(c.clone()),
            Component::Cpu(c) => Component::Cpu(c.clone()),
            Component::Ram(c) => Component::Ram(c.clone()),
            Component::KittyTabs(c) => Component::KittyTabs(c.clone()),
            Component::Windows(c) => Component::Windows(c.clone()),
            Component::Script(c) => Component::Script(c.clone()),
        }
    }
}

/// What became of one configuration entry.
pub enum EntryOutcome {
    /// The entry gave this component.
    Built(ComponentView),
    /// The entry names no component that is known: it is left out.
    Skipped,
    /// The entry names a configurable component and its settings were
    /// refused.
    Failed,
}

/// The component that is built for `name` where no factory and no script
/// stands under it: a built-in component with its defaults, created at
/// `now`. Nothing for any other name.
pub open spec fn builtin_component(name: Seq<char>, now: u64) -> Option<ComponentView> {
    if name == "time"@ {
        Some(ComponentView::Time(TimeView::configured(6, 18, Seq::empty(), 0)))
    } else if name == "cpu"@ {
        Some(ComponentView::Cpu(CpuView::configured(false, 10, 3, now)))
    } else if name == "ram"@ {
        Some(ComponentView::Ram(RamView::configured(false, 10, 2, now)))
    } else if name == "kitty_tabs"@ {
        Some(ComponentView::KittyTabs(KittyTabsView::configured(None, None, None)))
    } else if name == "windows"@ {
        Some(ComponentView::Windows(WindowsView::configured(None)))
    } else {
        None
    }
}

/// What becomes of `entry`: the factory under its name decides, then the
/// script under its name, then the built-in component of that name; an
/// entry whose name none of them knows is skipped.
pub open spec fn entry_outcome(
    factories: Map<Seq<char>, ComponentKind>,
    scripts: Map<Seq<char>, LuaComponentView>,
    entry: JsonView,
    now: u64,
) -> EntryOutcome {
    let name = entry.component_name();
    match created(factories, name, entry, now) {
        Some(Ok(c)) => EntryOutcome::Built(c),
        Some(Err(_)) => EntryOutcome::Failed,
        None => if scripts.contains_key(name) {
            EntryOutcome::Built(ComponentView::Script(scripts[name]))
        } else {
            match builtin_component(name, now) {
                Some(c) => EntryOutcome::Built(c),
                None => EntryOutcome::Skipped,
            }
        },
    }
}

/// The components of one region, and the positions of the entries that
/// were skipped.
pub struct RegionView {
    pub components: Seq<ComponentView>,
    pub skipped: Seq<int>,
}

/// What the entries of a region give where none of them fails: the
/// components of the entries that were built, in the order of the entries,
/// and the positions of the skipped ones.
pub open spec fn region_built(
    factories: Map<Seq<char>, ComponentKind>,
    scripts: Map<Seq<char>, LuaComponentView>,
    entries: Seq<JsonView>,
    now: u64,
) -> RegionView
    decreases entries.len(),
{
    if entries.len() == 0 {
        RegionView { components: Seq::empty(), skipped: Seq::empty() }
    } else {
        let rest = region_built(factories, scripts, entries.drop_last(), now);
        match entry_outcome(factories, scripts, entries.last(), now) {
            EntryOutcome::Built(c) => RegionView { components: rest.components.push(c), ..rest },
            EntryOutcome::Skipped => RegionView {
                skipped: rest.skipped.push(entries.len() - 1),
                ..rest
            },
            EntryOutcome::Failed => rest,
        }
    }
}

/// The position of the first entry that fails, if any does.
pub open spec fn first_failed(
    factories: Map<Seq<char>, ComponentKind>,
    scripts: Map<Seq<char>, LuaComponentView>,
    entries: Seq<JsonView>,
    now: u64,
) -> Option<int>
    decreases entries.len(),
{
    if entries.len() == 0 {
        None
    } else {
        match first_failed(factories, scripts, entries.drop_last(), now) {
            Some(i) => Some(i),
            None => if entry_outcome(factories, scripts, entries.last(), now) is Failed {
                Some(entries.len() - 1)
            } else {
                None
            },
        }
    }
}

/// What a document gives for one region: its components, or the error of
/// the list or of its first failing entry.
pub open spec fn region_set(
    factories: Map<Seq<char>, ComponentKind>,
    scripts: Map<Seq<char>, LuaComponentView>,
    document: JsonView,
    region: Region,
    now: u64,
) -> Result<RegionView, ConfigError> {
    match document.entries(region) {
        Err(e) => Err(e),
        Ok(entries) => match first_failed(factories, scripts, entries, now) {
            Some(i) => Err(ConfigError::Construction(region, i as usize)),
            None => Ok(region_built(factories, scripts, entries, now)),
        },
    }
}

/// The live set: the components of the three regions and the colour
/// switch.
pub struct LiveSetView {
    pub left: RegionView,
    pub middle: RegionView,
    pub right: RegionView,
    pub colorize: bool,
}

/// The live set that a document describes, or why it describes none. The
/// document has to be an object; then `colorize` is read, then the regions
/// from left to right, and the first error found is the error.
pub open spec fn live_set(
    factories: Map<Seq<char>, ComponentKind>,
    scripts: Map<Seq<char>, LuaComponentView>,
    document: JsonView,
    now: u64,
) -> Result<LiveSetView, ConfigError> {
    if !document.is_object() {
        Err(ConfigError::NotAnObject)
    } else {
        match document.colorize() {
            Err(e) => Err(e),
            Ok(colorize) => match region_set(factories, scripts, document, Region::Left, now) {
                Err(e) => Err(e),
                Ok(left) => match region_set(factories, scripts, document, Region::Middle, now) {
                    Err(e) => Err(e),
                    Ok(middle) => match region_set(factories, scripts, document, Region::Right, now) {
                        Err(e) => Err(e),
                        Ok(right) => Ok(LiveSetView { left, middle, right, colorize }),
                    },
                },
            },
        }
    }
}

/// The live set that a configuration text describes.
pub open spec fn live_set_of_text(
    factories: Map<Seq<char>, ComponentKind>,
    scripts: Map<Seq<char>, LuaComponentView>,
    text: Seq<char>,
    now: u64,
) -> Result<LiveSetView, ConfigError> {
    match parsed_json(text) {
        Some(document) => live_set(factories, scripts, document, now),
        None => Err(ConfigError::Malformed),
    }
}

/// A failure among the first entries is the first failure among all of
/// them.
pub proof fn lemma_first_failed_prefix(
    factories: Map<Seq<char>, ComponentKind>,
    scripts: Map<Seq<char>, LuaComponentView>,
    entries: Seq<JsonView>,
    now: u64,
    n: int,
)
    requires
        0 <= n <= entries.len(),
        first_failed(factories, scripts, entries.subrange(0, n), now).is_some(),
    ensures
        first_failed(factories, scripts, entries, now) == first_failed(
            factories,
            scripts,
            entries.subrange(0, n),
            now,
        ),
    decreases entries.len() - n,
{
    if n < entries.len() {
        assert(entries.subrange(0, n + 1).drop_last() =~= entries.subrange(0, n));
        lemma_first_failed_prefix(factories, scripts, entries, now, n + 1);
    } else {
        assert(entries.subrange(0, n) =~= entries);
    }
}

/// The views of a run of components.
pub open spec fn component_views(components: Seq<Component>) -> Seq<ComponentView> {
    components.map_values(|c: Component| c@)
}

/// The components of one region, with the positions of the entries that
/// were skipped when the region was built.
#[derive(Debug)]
pub struct RegionSet {
    pub components: Vec<Component>,
    pub skipped: Vec<usize>,
}

impl View for RegionSet {
    type V = RegionView;

    open spec fn view(&self) -> RegionView {
        RegionView {
            components: component_views(self.components@),
            skipped: self.skipped@.map_values(|i: usize| i as int),
        }
    }
}

enum BuiltEntry {
    Built(Component),
    Skipped,
    Failed,
}

impl View for BuiltEntry {
    type V = EntryOutcome;

    closed spec fn view(&self) -> EntryOutcome {
        match self {
            BuiltEntry::Built(c) => EntryOutcome::Built(c@),
            BuiltEntry::Skipped => EntryOutcome::Skipped,
            BuiltEntry::Failed => EntryOutcome::Failed,
        }
    }
}

fn build_builtin(name: &str, now: u64) -> (component: Option<Component>)
    ensures
        match component {
            Some(c) => builtin_component(name@, now) == Some(c@),
            None => builtin_component(name@, now).is_none(),
        },
{
    let chars = chars_of(name);
    if equals(&chars, "time") {
        let blank = String::new();
        Some(Component::Time(Time::new(blank.as_str(), 0)))
    } else if equals(&chars, "cpu") {
        Some(Component::Cpu(Cpu::new(now)))
    } else if equals(&chars, "ram") {
        Some(Component::Ram(Ram::new(now)))
    } else if equals(&chars, "kitty_tabs") {
        Some(Component::KittyTabs(KittyTabs::new(None, None)))
    } else if equals(&chars, "windows") {
        Some(Component::Windows(Windows::new(None)))
    } else {
        None
    }
}

fn build_entry(
    registry: &ConfigurableComponentRegistry,
    scripts: &LuaComponentRegistry,
    entry: &serde_json::Value,
    now: u64,
) -> (built: BuiltEntry)
    ensures
        built@ == entry_outcome(registry@, scripts@, json_content(*entry), now),
{
    let name = ConfigurableComponentRegistry::extract_component_name(entry);
    match registry.try_create(name.as_str(), entry, now) {
        Some(Ok(c)) => BuiltEntry::Built(c),
        Some(Err(_)) => BuiltEntry::Failed,
        None => match scripts.get_component(name.as_str()) {
            Some(script) => BuiltEntry::Built(Component::Script(script.clone())),
            None => match build_builtin(name.as_str(), now) {
                Some(c) => BuiltEntry::Built(c),
                None => BuiltEntry::Skipped,
            },
        },
    }
}

fn build_region(
    registry: &ConfigurableComponentRegistry,
    scripts: &LuaComponentRegistry,
    entries: &Vec<serde_json::Value>,
    region: Region,
    now: u64,
) -> (built: Result<RegionSet, ConfigError>)
    ensures
        match built {
            Ok(set) => {
                &&& first_failed(registry@, scripts@, json_contents(entries@), now).is_none()
                &&& set@ == region_built(registry@, scripts@, json_contents(entries@), now)
            },
            Err(e) => {
                &&& first_failed(registry@, scripts@, json_contents(entries@), now) matches Some(i)
                &&& e == ConfigError::Construction(region, i as usize)
            },
        },
{
    let mut components: Vec<Component> = Vec::new();
    let mut skipped: Vec<usize> = Vec::new();
    let ghost all = json_contents(entries@);
    let mut i: usize = 0;
    while i < entries.len()
        invariant
            i <= entries.len(),
            all == json_contents(entries@),
            first_failed(registry@, scripts@, all.subrange(0, i as int), now).is_none(),
            component_views(components@) == region_built(
                registry@,
                scripts@,
                all.subrange(0, i as int),
                now,
            ).components,
            skipped@.map_values(|k: usize| k as int) == region_built(
                registry@,
                scripts@,
                all.subrange(0, i as int),
                now,
            ).skipped,
        decreases entries.len() - i,
    {
        let ghost before = all.subrange(0, i as int);
        let ghost after = all.subrange(0, i + 1);
        proof {
            assert(after.drop_last() =~= before);
            assert(after.last() == json_content(entries@[i as int]));
        }
        match build_entry(registry, scripts, &entries[i], now) {
            BuiltEntry::Built(c) => {
                let ghost old_components = component_views(components@);
                components.push(c);
                assert(component_views(components@) =~= old_components.push(c@));
            },
            BuiltEntry::Skipped => {
                let ghost old_skipped = skipped@.map_values(|k: usize| k as int);
                skipped.push(i);
                assert(skipped@.map_values(|k: usize| k as int) =~= old_skipped.push(i as int));
            },
            BuiltEntry::Failed => {
                proof {
                    assert(first_failed(registry@, scripts@, after, now) == Some(i as int));
                    lemma_first_failed_prefix(registry@, scripts@, all, now, i + 1);
                }
                return Err(ConfigError::Construction(region, i));
            },
        }
        i += 1;
    }
    assert(all.subrange(0, i as int) =~= all);
    Ok(RegionSet { components, skipped })
}

fn build_region_of(
    registry: &ConfigurableComponentRegistry,
    scripts: &LuaComponentRegistry,
    document: &serde_json::Value,
    region: Region,
    now: u64,
) -> (built: Result<RegionSet, ConfigError>)
    ensures
        match built {
            Ok(set) => region_set(registry@, scripts@, json_content(*document), region, now) == Ok::<
                RegionView,
                ConfigError,
            >(set@),
            Err(e) => region_set(registry@, scripts@, json_content(*document), region, now) == Err::<
                RegionView,
                ConfigError,
            >(e),
        },
{
    match read_entries(document, region) {
        Err(e) => Err(e),
        Ok(None) => {
            let set = RegionSet { components: Vec::new(), skipped: Vec::new() };
            assert(set@.components =~= Seq::empty());
            assert(set@.skipped =~= Seq::empty());
            Ok(set)
        },
        Ok(Some(entries)) => build_region(registry, scripts, entries, region, now),
    }
}

/// The components of the three regions and the colour switch, as built
/// from one document.
#[derive(Debug)]
pub struct LiveSet {
    left: RegionSet,
    middle: RegionSet,
    right: RegionSet,
    colorize: bool,
}

impl View for LiveSet {
    type V = LiveSetView;

    closed spec fn view(&self) -> LiveSetView {
        LiveSetView {
            left: self.left@,
            middle: self.middle@,
            right: self.right@,
            colorize: self.colorize,
        }
    }
}

impl LiveSetView {
    /// The components of the region called `name`, in their order; none for
    /// a name that is no region's.
    pub open spec fn region_components(self, name: Seq<char>) -> Seq<ComponentView> {
        match Region::named(name) {
            Some(Region::Left) => self.left.components,
            Some(Region::Middle) => self.middle.components,
            Some(Region::Right) => self.right.components,
            None => Seq::empty(),
        }
    }
}

/// Builds the live set that `document` describes, with the factories of
/// `registry` and the scripts of `scripts`. Components are created at
/// `now` and have taken no reading yet.
pub fn build_live_set(
    registry: &ConfigurableComponentRegistry,
    scripts: &LuaComponentRegistry,
    document: &serde_json::Value,
    now: u64,
) -> (built: Result<LiveSet, ConfigError>)
    ensures
        match built {
            Ok(set) => live_set(registry@, scripts@, json_content(*document), now) == Ok::<
                LiveSetView,
                ConfigError,
            >(set@),
            Err(e) => live_set(registry@, scripts@, json_content(*document), now) == Err::<
                LiveSetView,
                ConfigError,
            >(e),
        },
{
    if !is_configuration(document) {
        return Err(ConfigError::NotAnObject);
    }
    let colorize = match read_colorize(document) {
        Ok(c) => c,
        Err(e) => {
            return Err(e);
        },
    };
    let left = match build_region_of(registry, scripts, document, Region::Left, now) {
        Ok(set) => set,
        Err(e) => {
            return Err(e);
        },
    };
    let middle = match build_region_of(registry, scripts, document, Region::Middle, now) {
        Ok(set) => set,
        Err(e) => {
            return Err(e);
        },
    };
    let right = match build_region_of(registry, scripts, document, Region::Right, now) {
        Ok(set) => set,
        Err(e) => {
            return Err(e);
        },
    };
    Ok(LiveSet { left, middle, right, colorize })
}

/// The views of a run of readings.
pub open spec fn reading_views(readings: Seq<Reading>) -> Seq<ReadingView> {
    readings.map_values(|r: Reading| r@)
}

/// The reading at position `i` of `readings`; a position without a reading
/// counts as a failed sampling.
pub open spec fn reading_at(readings: Seq<ReadingView>, i: int) -> ReadingView {
    if 0 <= i < readings.len() {
        readings[i]
    } else {
        ReadingView::Failed
    }
}

/// The readings from position `from` on; none where there are not so
/// many.
pub open spec fn readings_from(readings: Seq<ReadingView>, from: int) -> Seq<ReadingView> {
    if 0 <= from <= readings.len() {
        readings.skip(from)
    } else {
        Seq::empty()
    }
}

/// The components after each took the reading at its position, counted
/// from `offset`.
pub open spec fn updated_components(
    components: Seq<ComponentView>,
    readings: Seq<ReadingView>,
    offset: int,
) -> Seq<ComponentView> {
    Seq::new(components.len(), |i: int| components[i].updated(reading_at(readings, offset + i)))
}

/// Every component accepts the reading at its position, counted from
/// `offset`.
pub open spec fn all_accept(components: Seq<ComponentView>, readings: Seq<ReadingView>, offset: int) -> bool {
    forall|i: int|
        0 <= i < components.len() ==> (#[trigger] components[i]).accepts(
            reading_at(readings, offset + i),
        )
}

impl RegionView {
    /// The region after an update with the readings from `offset` on.
    pub open spec fn updated(self, readings: Seq<ReadingView>, offset: int) -> RegionView {
        RegionView { components: updated_components(self.components, readings, offset), ..self }
    }
}

impl LiveSetView {
    /// The live set after an update. The readings stand in the order of the
    /// components: those of the left region first, then those of the middle
    /// and of the right one.
    pub open spec fn updated(self, readings: Seq<ReadingView>) -> LiveSetView {
        LiveSetView {
            left: self.left.updated(readings, 0),
            middle: self.middle.updated(readings, self.left.components.len() as int),
            right: self.right.updated(
                readings,
                (self.left.components.len() + self.middle.components.len()) as int,
            ),
            ..self
        }
    }

    /// Every component of the set has a reading that it accepts.
    pub open spec fn all_accept(self, readings: Seq<ReadingView>) -> bool {
        &&& all_accept(self.left.components, readings, 0)
        &&& all_accept(self.middle.components, readings, self.left.components.len() as int)
        &&& all_accept(
            self.right.components,
            readings,
            (self.left.components.len() + self.middle.components.len()) as int,
        )
    }

    /// The readings that the set asks for, in the order of its components.
    pub open spec fn probes(self) -> Seq<Probe> {
        self.left.components.map_values(|c: ComponentView| c.probe())
            + self.middle.components.map_values(|c: ComponentView| c.probe())
            + self.right.components.map_values(|c: ComponentView| c.probe())
    }
}

fn update_region(
    components: &mut Vec<Component>,
    readings: &mut Vec<Reading>,
    Ghost(offset): Ghost<int>,
    Ghost(all): Ghost<Seq<ReadingView>>,
) -> (refreshed: bool)
    requires
        0 <= offset,
        reading_views(old(readings)@) == readings_from(all, offset),
    ensures
        component_views(final(components)@) == updated_components(
            component_views(old(components)@),
            all,
            offset,
        ),
        reading_views(final(readings)@) == readings_from(all, offset + old(components)@.len()),
        refreshed == all_accept(component_views(old(components)@), all, offset),
{
    let ghost before = component_views(components@);
    let n: usize = components.len();
    let mut refreshed = true;
    let mut i: usize = 0;
    while i < n
        invariant
            i <= n,
            n == components.len(),
            before.len() == n,
            0 <= offset,
            forall|k: int|
                0 <= k < i ==> (#[trigger] component_views(components@)[k]) == before[k].updated(
                    reading_at(all, offset + k),
                ),
            forall|k: int| i <= k < n ==> (#[trigger] component_views(components@)[k]) == before[k],
            reading_views(readings@) == readings_from(all, offset + i),
            refreshed == (forall|k: int|
                0 <= k < i ==> (#[trigger] before[k]).accepts(reading_at(all, offset + k))),
        decreases n - i,
    {
        let ghost views = component_views(components@);
        let ghost pending = reading_views(readings@);
        assert(pending.len() == readings@.len());
        let ghost waiting = readings@;
        let reading = if readings.len() > 0 {
            let r = readings.remove(0);
            proof {
                assert(pending[0] == waiting[0]@);
                assert(pending[0] == r@);
                assert(offset + i < all.len());
                assert(readings@ =~= waiting.skip(1));
                assert forall|k: int| 0 <= k < readings@.len() implies #[trigger] reading_views(
                    readings@,
                )[k] == all[offset + i + 1 + k] by {
                    assert(readings@[k] == waiting[k + 1]);
                    assert(pending[k + 1] == waiting[k + 1]@);
                }
                assert(pending[0] == all[offset + i]);
                assert(reading_views(readings@) =~= readings_from(all, offset + i + 1));
            }
            r
        } else {
            proof {
                assert(pending.len() == 0);
                assert(reading_views(readings@) =~= readings_from(all, offset + i + 1));
            }
            Reading::Failed
        };
        assert(reading@ == reading_at(all, offset + i));
        assert(views[i as int] == components@[i as int]@);
        let ok = components[i].update(reading);
        let ghost shown = components@[i as int]@;
        proof {
            let now = component_views(components@);
            assert forall|k: int| 0 <= k < n implies #[trigger] now[k] == if k == i {
                shown
            } else {
                views[k]
            } by {}
            assert(before[i as int] == views[i as int]);
        }
        if !ok {
            refreshed = false;
        }
        i += 1;
    }
    assert(component_views(components@) =~= updated_components(before, all, offset));
    refreshed
}

/// What the manager holds: the live set, the factories and the scripts.
pub struct ManagerView {
    pub live: LiveSetView,
    pub factories: Map<Seq<char>, ComponentKind>,
    pub scripts: Map<Seq<char>, LuaComponentView>,
}

/// The component manager. It owns the live components, in the order in
/// which the bar shows them, and the registries from which a configuration
/// is built.
pub struct ComponentManager {
    live: LiveSet,
    registry: ConfigurableComponentRegistry,
    scripts: LuaComponentRegistry,
}

impl View for ComponentManager {
    type V = ManagerView;

    closed spec fn view(&self) -> ManagerView {
        ManagerView { live: self.live@, factories: self.registry@, scripts: self.scripts@ }
    }
}

/// The views of a run of borrowed components.
pub open spec fn borrowed_views(components: Seq<&Component>) -> Seq<ComponentView> {
    components.map_values(|c: &Component| c@)
}

fn borrow_all(components: &Vec<Component>) -> (borrowed: Vec<&Component>)
    ensures
        borrowed_views(borrowed@) == component_views(components@),
{
    let mut borrowed: Vec<&Component> = Vec::new();
    let mut i: usize = 0;
    while i < components.len()
        invariant
            i <= components.len(),
            borrowed.len() == i,
            forall|k: int| 0 <= k < i ==> *(#[trigger] borrowed@[k]) == components@[k],
        decreases components.len() - i,
    {
        borrowed.push(&components[i]);
        i += 1;
    }
    assert(borrowed_views(borrowed@) =~= component_views(components@));
    borrowed
}

fn push_probes(components: &Vec<Component>, probes: &mut Vec<Probe>)
    ensures
        final(probes)@ == old(probes)@ + component_views(components@).map_values(
            |c: ComponentView| c.probe(),
        ),
{
    let mut i: usize = 0;
    while i < components.len()
        invariant
            i <= components.len(),
            probes@ == old(probes)@ + component_views(components@).subrange(0, i as int).map_values(
                |c: ComponentView| c.probe(),
            ),
        decreases components.len() - i,
    {
        let probe = components[i].probe();
        probes.push(probe);
        i += 1;
        assert(probes@ =~= old(probes)@ + component_views(components@).subrange(0, i as int).map_values(
            |c: ComponentView| c.probe(),
        ));
    }
    assert(component_views(components@).subrange(0, i as int) =~= component_views(components@));
}

impl LiveSet {
    /// Updates every component with its reading, in the order left, middle,
    /// right. Returns whether every component had a reading that it
    /// accepts.
    pub fn update(&mut self, readings: Vec<Reading>) -> (refreshed: bool)
        ensures
            final(self)@ == old(self)@.updated(reading_views(readings@)),
            refreshed == old(self)@.all_accept(reading_views(readings@)),
    {
        let ghost all = reading_views(readings@);
        let ghost left_len = self.left.components@.len() as int;
        let ghost middle_len = self.middle.components@.len() as int;
        let mut pending = readings;
        assert(readings_from(all, 0) =~= all);
        let left_ok = update_region(&mut self.left.components, &mut pending, Ghost(0), Ghost(all));
        let middle_ok = update_region(
            &mut self.middle.components,
            &mut pending,
            Ghost(left_len),
            Ghost(all),
        );
        let right_ok = update_region(
            &mut self.right.components,
            &mut pending,
            Ghost(left_len + middle_len),
            Ghost(all),
        );
        left_ok && middle_ok && right_ok
    }
}

impl ComponentManager {
    /// A manager for the configuration `document`, built with the given
    /// registries. An error of the document or of one of its entries is
    /// the error of the whole: no manager is made.
    pub fn new(
        registry: ConfigurableComponentRegistry,
        scripts: LuaComponentRegistry,
        document: &serde_json::Value,
        now: u64,
    ) -> (made: Result<ComponentManager, ConfigError>)
        ensures
            match made {
                Ok(manager) => live_set(registry@, scripts@, json_content(*document), now) == Ok::<
                    LiveSetView,
                    ConfigError,
                >(manager@.live) && manager@.factories == registry@ && manager@.scripts
                    == scripts@,
                Err(e) => live_set(registry@, scripts@, json_content(*document), now) == Err::<
                    LiveSetView,
                    ConfigError,
                >(e),
            },
    {
        match build_live_set(&registry, &scripts, document, now) {
            Ok(live) => Ok(ComponentManager { live, registry, scripts }),
            Err(e) => Err(e),
        }
    }

    /// A manager for the configuration in `text`.
    pub fn from_text(
        registry: ConfigurableComponentRegistry,
        scripts: LuaComponentRegistry,
        text: &str,
        now: u64,
    ) -> (made: Result<ComponentManager, ConfigError>)
        ensures
            match made {
                Ok(manager) => live_set_of_text(registry@, scripts@, text@, now) == Ok::<
                    LiveSetView,
                    ConfigError,
                >(manager@.live) && manager@.factories == registry@ && manager@.scripts
                    == scripts@,
                Err(e) => live_set_of_text(registry@, scripts@, text@, now) == Err::<
                    LiveSetView,
                    ConfigError,
                >(e),
            },
    {
        match parse(text) {
            Some(document) => ComponentManager::new(registry, scripts, &document, now),
            None => Err(ConfigError::Malformed),
        }
    }

    /// The components of the region called `region`, in the order in which
    /// they are shown. A name that is no region's has none.
    pub fn get_bar_components(&self, region: &str) -> (components: Vec<&Component>)
        ensures
            borrowed_views(components@) == self@.live.region_components(region@),
    {
        match Region::from_name(region) {
            Some(Region::Left) => borrow_all(&self.live.left.components),
            Some(Region::Middle) => borrow_all(&self.live.middle.components),
            Some(Region::Right) => borrow_all(&self.live.right.components),
            None => {
                let none: Vec<&Component> = Vec::new();
                assert(borrowed_views(none@) =~= Seq::empty());
                none
            },
        }
    }

    /// Whether components render in colour.
    pub fn get_colorize(&self) -> (colorize: bool)
        ensures
            colorize == self@.live.colorize,
    {
        self.live.colorize
    }

    /// The positions of the entries of `region` that named no known
    /// component when the live set was built.
    pub fn skipped_entries(&self, region: Region) -> (skipped: &Vec<usize>)
        ensures
            skipped@.map_values(|i: usize| i as int) == match region {
                Region::Left => self@.live.left.skipped,
                Region::Middle => self@.live.middle.skipped,
                Region::Right => self@.live.right.skipped,
            },
    {
        match region {
            Region::Left => &self.live.left.skipped,
            Region::Middle => &self.live.middle.skipped,
            Region::Right => &self.live.right.skipped,
        }
    }

    /// The readings to take before the next update, one per component, in
    /// the order in which `update` expects them.
    pub fn probes(&self) -> (probes: Vec<Probe>)
        ensures
            probes@ == self@.live.probes(),
    {
        let mut probes: Vec<Probe> = Vec::new();
        push_probes(&self.live.left.components, &mut probes);
        push_probes(&self.live.middle.components, &mut probes);
        push_probes(&self.live.right.components, &mut probes);
        probes
    }

    /// Updates every component with its reading. A component whose reading
    /// is missing, failed or of another kind degrades what it shows, and
    /// the components after it are updated all the same. Returns whether
    /// every component had a reading that it accepts.
    pub fn update(&mut self, readings: Vec<Reading>) -> (refreshed: bool)
        ensures
            final(self)@.live == old(self)@.live.updated(reading_views(readings@)),
            final(self)@.factories == old(self)@.factories,
            final(self)@.scripts == old(self)@.scripts,
            refreshed == old(self)@.live.all_accept(reading_views(readings@)),
    {
        self.live.update(readings)
    }

    /// Replaces the live set by the one that `document` describes. The new
    /// set is built whole before anything changes: where the document or
    /// one of its entries is refused, the manager stays exactly as it was
    /// and the error is returned.
    pub fn reload(&mut self, document: &serde_json::Value, now: u64) -> (reloaded: Result<(), ConfigError>)
        ensures
            match live_set(old(self)@.factories, old(self)@.scripts, json_content(*document), now) {
                Ok(set) => reloaded.is_ok() && final(self)@ == (ManagerView { live: set, ..old(self)@ }),
                Err(e) => reloaded == Err::<(), ConfigError>(e) && *final(self) == *old(self),
            },
    {
        match build_live_set(&self.registry, &self.scripts, document, now) {
            Ok(live) => {
                self.live = live;
                Ok(())
            },
            Err(e) => Err(e),
        }
    }

    /// Replaces the live set by the one that the configuration in `text`
    /// describes, or changes nothing where there is none.
    pub fn reload_from_text(&mut self, text: &str, now: u64) -> (reloaded: Result<(), ConfigError>)
        ensures
            match live_set_of_text(old(self)@.factories, old(self)@.scripts, text@, now) {
                Ok(set) => reloaded.is_ok() && final(self)@ == (ManagerView { live: set, ..old(self)@ }),
                Err(e) => reloaded == Err::<(), ConfigError>(e) && *final(self) == *old(self),
            },
    {
        match parse(text) {
            Some(document) => self.reload(&document, now),
            None => Err(ConfigError::Malformed),
        }
    }

    /// Registers the factory `kind` under `name`, for the next
    /// configuration that is built. The name is taken from whatever held
    /// it: an earlier factory, or a script.
    pub fn register_component(&mut self, name: &str, kind: ComponentKind)
        ensures
            final(self)@ == (ManagerView {
                factories: old(self)@.factories.insert(name@, kind),
                scripts: old(self)@.scripts.remove(name@),
                ..old(self)@
            }),
    {
        self.registry.register_component(name, kind);
        self.scripts.remove(name);
    }

    /// Registers the script at `script_path` under `name`, if its
    /// inspection allows it, for the next configuration that is built. The
    /// name is taken from whatever held it: an earlier script, or a
    /// factory. A script that is refused changes nothing.
    pub fn load_component(&mut self, name: &str, script_path: &str, inspection: ScriptInspection) -> (loaded:
        Result<(), ScriptLoadError>)
        ensures
            loaded == inspection.outcome(),
            loaded.is_ok() ==> final(self)@ == (ManagerView {
                factories: old(self)@.factories.remove(name@),
                scripts: old(self)@.scripts.insert(
                    name@,
                    LuaComponentView::fresh(name@, script_path@),
                ),
                ..old(self)@
            }),
            loaded.is_err() ==> *final(self) == *old(self),
    {
        match self.scripts.load_component(name, script_path, inspection) {
            Ok(()) => {
                self.registry.remove(name);
                Ok(())
            },
            Err(e) => Err(e),
        }
    }
}

/// An entry that names no known component is left out and nothing else
/// changes: the region gets the components it would get from the same
/// entries without that one, and the other entries fail or succeed as they
/// would without it.
pub proof fn lemma_unknown_entry_omitted(
    factories: Map<Seq<char>, ComponentKind>,
    scripts: Map<Seq<char>, LuaComponentView>,
    entries: Seq<JsonView>,
    now: u64,
    at: int,
)
    requires
        0 <= at < entries.len(),
        entry_outcome(factories, scripts, entries[at], now) is Skipped,
    ensures
        region_built(factories, scripts, entries, now).components == region_built(
            factories,
            scripts,
            entries.remove(at),
            now,
        ).components,
        first_failed(factories, scripts, entries, now).is_none() == first_failed(
            factories,
            scripts,
            entries.remove(at),
            now,
        ).is_none(),
    decreases entries.len(),
{
    if at == entries.len() - 1 {
        assert(entries.remove(at) =~= entries.drop_last());
    } else {
        lemma_unknown_entry_omitted(factories, scripts, entries.drop_last(), now, at);
        assert(entries.remove(at).drop_last() =~= entries.drop_last().remove(at));
        assert(entries.remove(at).last() == entries.last());
    }
}

/// Every entry that is built contributes exactly one component: a region
/// without a failing entry has as many components as it has entries that
/// were not skipped.
pub proof fn lemma_region_counts(
    factories: Map<Seq<char>, ComponentKind>,
    scripts: Map<Seq<char>, LuaComponentView>,
    entries: Seq<JsonView>,
    now: u64,
)
    requires
        first_failed(factories, scripts, entries, now).is_none(),
    ensures
        region_built(factories, scripts, entries, now).components.len() + region_built(
            factories,
            scripts,
            entries,
            now,
        ).skipped.len() == entries.len(),
    decreases entries.len(),
{
    if entries.len() > 0 {
        lemma_region_counts(factories, scripts, entries.drop_last(), now);
    }
}

/// Factories and scripts share one namespace, and the last registration
/// under a name wins: after a factory is registered under `name`, an entry
/// with that name goes to the factory, whatever script stood there; after
/// a script is registered, the entry gives the script, whatever factory
/// stood there.
pub proof fn lemma_shared_namespace(
    factories: Map<Seq<char>, ComponentKind>,
    scripts: Map<Seq<char>, LuaComponentView>,
    entry: JsonView,
    now: u64,
    kind: ComponentKind,
    script: LuaComponentView,
)
    ensures
        entry_outcome(
            factories.insert(entry.component_name(), kind),
            scripts.remove(entry.component_name()),
            entry,
            now,
        ) == match kind.built(entry, now) {
            Some(c) => EntryOutcome::Built(c),
            None => EntryOutcome::Failed,
        },
        entry_outcome(
            factories.remove(entry.component_name()),
            scripts.insert(entry.component_name(), script),
            entry,
            now,
        ) == EntryOutcome::Built(ComponentView::Script(script)),
{
}

} // verus!
