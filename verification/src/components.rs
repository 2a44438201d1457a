//! The built-in components of the bar, and the registry of those that a
//! configuration entry can set up.

pub mod cpu;
pub mod kitty_tabs;
pub mod ram;
pub mod sparkline;
pub mod status_bar;
pub mod system_info;
pub mod time;
pub mod windows;

use vstd::prelude::*;
use crate::component_manager::{Component, ComponentView};
use crate::components::cpu::Cpu;
use crate::components::kitty_tabs::KittyTabs;
use crate::components::ram::Ram;
use crate::components::time::Time;
use crate::json::{as_text, json_content, member, JsonView};
use crate::name_table::NameTable;

verus! {

/// A component that can be built from the settings of a configuration
/// entry.
pub trait ConfigurableComponent: Sized + View {
    /// The component that `settings` describe, created at `now`; nothing
    /// where a setting does not have the shape that the component expects.
    spec fn from_settings(settings: JsonView, now: u64) -> Option<Self::V>;

    /// Builds the component that `settings` describe. The component has
    /// taken no reading yet.
    fn from_config(settings: &serde_json::Value, now: u64) -> (built: Option<Self>)
        ensures
            match built {
                Some(c) => Self::from_settings(json_content(*settings), now) == Some(c@),
                None => Self::from_settings(json_content(*settings), now).is_none(),
            },
    ;
}

/// The built-in components that a configuration entry can set up. A kind
/// stands for the factory of its component.
#[derive(Debug, Clone, Copy, PartialEq, Eq, Structural)]
pub enum ComponentKind {
    Time,
    Cpu,
    Ram,
    KittyTabs,
}

/// Why a factory did not build its component.
#[derive(Debug, Clone, Copy, PartialEq, Eq, Structural)]
pub enum FactoryError {
    /// A setting of the entry does not have the shape that the component
    /// expects.
    BadSettings,
}

impl ComponentKind {
    /// The component that the factory builds from `settings` at `now`;
    /// nothing where the settings do not fit.
    pub open spec fn built(self, settings: JsonView, now: u64) -> Option<ComponentView> {
        match self {
            ComponentKind::Time => match Time::from_settings(settings, now) {
                Some(c) => Some(ComponentView::Time(c)),
                None => None,
            },
            ComponentKind::Cpu => match Cpu::from_settings(settings, now) {
                Some(c) => Some(ComponentView::Cpu(c)),
                None => None,
            },
            ComponentKind::Ram => match Ram::from_settings(settings, now) {
                Some(c) => Some(ComponentView::Ram(c)),
                None => None,
            },
            ComponentKind::KittyTabs => match KittyTabs::from_settings(settings, now) {
                Some(c) => Some(ComponentView::KittyTabs(c)),
                None => None,
            },
        }
    }

    /// Runs the factory on the settings of an entry.
    pub fn build(self, settings: &serde_json::Value, now: u64) -> (component: Option<Component>)
        ensures
            match component {
                Some(c) => self.built(json_content(*settings), now) == Some(c@),
                None => self.built(json_content(*settings), now).is_none(),
            },
    {
        match self {
            ComponentKind::Time => match Time::from_config(settings, now) {
                Some(c) => Some(Component::Time(c)),
                None => None,
            },
            ComponentKind::Cpu => match Cpu::from_config(settings, now) {
                Some(c) => Some(Component::Cpu(c)),
                None => None,
            },
            ComponentKind::Ram => match Ram::from_config(settings, now) {
                Some(c) => Some(Component::Ram(c)),
                None => None,
            },
            ComponentKind::KittyTabs => match KittyTabs::from_config(settings, now) {
                Some(c) => Some(Component::KittyTabs(c)),
                None => None,
            },
        }
    }
}

/// The factories that a new registry holds: one per configurable built-in
/// component, under the component's name.
pub open spec fn builtin_factories() -> Map<Seq<char>, ComponentKind> {
    Map::<Seq<char>, ComponentKind>::empty().insert("time"@, ComponentKind::Time).insert(
        "cpu"@,
        ComponentKind::Cpu,
    ).insert("ram"@, ComponentKind::Ram).insert("kitty_tabs"@, ComponentKind::KittyTabs)
}

/// What `try_create` answers for `name` and `settings`, given the
/// registered `factories`: nothing for a name without a factory, an error
/// where the factory refuses the settings, and the component otherwise.
pub open spec fn created(
    factories: Map<Seq<char>, ComponentKind>,
    name: Seq<char>,
    settings: JsonView,
    now: u64,
) -> Option<Result<ComponentView, FactoryError>> {
    if factories.contains_key(name) {
        match factories[name].built(settings, now) {
            Some(c) => Some(Ok(c)),
            None => Some(Err(FactoryError::BadSettings)),
        }
    } else {
        None
    }
}

/// The view of what `try_create` returned.
pub open spec fn creation_view(creation: Option<Result<Component, FactoryError>>) -> Option<
    Result<ComponentView, FactoryError>,
> {
    match creation {
        Some(Ok(c)) => Some(Ok(c@)),
        Some(Err(e)) => Some(Err(e)),
        None => None,
    }
}

/// The factories of the configurable components, by name.
pub struct ConfigurableComponentRegistry {
    factories: NameTable<ComponentKind>,
}

impl View for ConfigurableComponentRegistry {
    type V = Map<Seq<char>, ComponentKind>;

    closed spec fn view(&self) -> Map<Seq<char>, ComponentKind> {
        self.factories@
    }
}

/// Registers the factory of every configurable built-in component under
/// the component's name.
pub fn register_all_configurable_components(registry: &mut ConfigurableComponentRegistry)
    ensures
        final(registry)@ == old(registry)@.insert("time"@, ComponentKind::Time).insert(
            "cpu"@,
            ComponentKind::Cpu,
        ).insert("ram"@, ComponentKind::Ram).insert("kitty_tabs"@, ComponentKind::KittyTabs),
{
    registry.register_component("time", ComponentKind::Time);
    registry.register_component("cpu", ComponentKind::Cpu);
    registry.register_component("ram", ComponentKind::Ram);
    registry.register_component("kitty_tabs", ComponentKind::KittyTabs);
}

impl ConfigurableComponentRegistry {
    /// A registry with the factories of the built-in components.
    pub fn new() -> (registry: ConfigurableComponentRegistry)
        ensures
            registry@ == builtin_factories(),
    {
        let mut registry = ConfigurableComponentRegistry { factories: NameTable::new() };
        register_all_configurable_components(&mut registry);
        registry
    }

    /// A registry without factories.
    pub fn empty() -> (registry: ConfigurableComponentRegistry)
        ensures
            registry@ == Map::<Seq<char>, ComponentKind>::empty(),
    {
        ConfigurableComponentRegistry { factories: NameTable::new() }
    }

    /// Registers the factory `kind` under `name`. A factory registered
    /// under the name before is replaced.
    pub fn register_component(&mut self, name: &str, kind: ComponentKind)
        ensures
            final(self)@ == old(self)@.insert(name@, kind),
    {
        self.factories.insert(name.to_owned(), kind);
    }

    /// Takes the factory under `name` out of the registry.
    pub fn remove(&mut self, name: &str)
        ensures
            final(self)@ == old(self)@.remove(name@),
    {
        self.factories.remove(name);
    }

    /// The factory registered under `name`.
    pub fn factory(&self, name: &str) -> (kind: Option<ComponentKind>)
        ensures
            match kind {
                Some(k) => self@.contains_key(name@) && self@[name@] == k,
                None => !self@.contains_key(name@),
            },
    {
        match self.factories.get(name) {
            Some(k) => Some(*k),
            None => None,
        }
    }

    /// Builds the component registered under `component_name` from the
    /// settings `value`. `None` says that no factory is registered under
    /// the name; an error, that the factory refused the settings.
    pub fn try_create(&self, component_name: &str, value: &serde_json::Value, now: u64) -> (creation:
        Option<Result<Component, FactoryError>>)
        ensures
            creation_view(creation) == created(self@, component_name@, json_content(*value), now),
    {
        match self.factory(component_name) {
            Some(kind) => match kind.build(value, now) {
                Some(c) => Some(Ok(c)),
                None => Some(Err(FactoryError::BadSettings)),
            },
            None => None,
        }
    }

    /// The name of the component that an entry asks for: its text member
    /// `component`, and `unknown` where it has none.
    pub fn extract_component_name(value: &serde_json::Value) -> (name: String)
        ensures
            name@ == json_content(*value).component_name(),
    {
        match member(value, "component") {
            Some(c) => match as_text(c) {
                Some(name) => name.to_owned(),
                None => "unknown".to_owned(),
            },
            None => "unknown".to_owned(),
        }
    }
}

/// The factory registered last under a name is the one that builds: after
/// two registrations under `name`, `try_create` answers as the second
/// factory does, whatever the first was.
pub proof fn lemma_last_registration_wins(
    factories: Map<Seq<char>, ComponentKind>,
    name: Seq<char>,
    first: ComponentKind,
    second: ComponentKind,
    settings: JsonView,
    now: u64,
)
    ensures
        factories.insert(name, first).insert(name, second) == factories.insert(name, second),
        created(
            factories.insert(name, first).insert(name, second),
            name,
            settings,
            now,
        ) == match second.built(settings, now) {
            Some(c) => Some(Ok::<ComponentView, FactoryError>(c)),
            None => Some(Err::<ComponentView, FactoryError>(FactoryError::BadSettings)),
        },
{
    assert(factories.insert(name, first).insert(name, second) =~= factories.insert(name, second));
}

/// What `try_create` answers: nothing exactly for the names without a
/// factory, an error exactly where the name has a factory that refuses the
/// settings, and a component in every other case.
pub proof fn lemma_try_create_cases(
    factories: Map<Seq<char>, ComponentKind>,
    name: Seq<char>,
    settings: JsonView,
    now: u64,
)
    ensures
        created(factories, name, settings, now).is_none() <==> !factories.contains_key(name),
        created(factories, name, settings, now) matches Some(Err(_)) <==> factories.contains_key(name)
            && factories[name].built(settings, now).is_none(),
        created(factories, name, settings, now) matches Some(Ok(_)) <==> factories.contains_key(name)
            && factories[name].built(settings, now).is_some(),
{
}

} // verus!
