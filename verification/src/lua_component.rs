//! Components that a script defines.
//!
//! The interpreter runs outside this library. What it found in a script, and
//! what the script rendered, come in as plain values; the registry decides
//! what is registered, and the component what is shown.

use vstd::prelude::*;
use crate::name_table::NameTable;
use crate::style::{fragment_views, Fragment, FragmentView};

verus! {

/// What the interpreter found when it evaluated a script.
#[derive(Debug, Clone, Copy, PartialEq, Eq, Structural)]
pub struct ScriptInspection {
    /// The file could be read.
    pub readable: bool,
    /// The text is a script that the interpreter accepts.
    pub parsed: bool,
    /// The script defines the entry point `update`.
    pub has_update: bool,
    /// The script defines the entry point `render`.
    pub has_render: bool,
}

/// Why a script was not registered.
#[derive(Debug, Clone, Copy, PartialEq, Eq, Structural)]
pub enum ScriptLoadError {
    Unreadable,
    ParseFailure,
    MissingEntryPoint,
}

impl ScriptInspection {
    /// Whether a script with this inspection can be registered, and why not
    /// where it cannot.
    pub open spec fn outcome(self) -> Result<(), ScriptLoadError> {
        if !self.readable {
            Err(ScriptLoadError::Unreadable)
        } else if !self.parsed {
            Err(ScriptLoadError::ParseFailure)
        } else if !(self.has_update && self.has_render) {
            Err(ScriptLoadError::MissingEntryPoint)
        } else {
            Ok(())
        }
    }

    /// Judges an inspection.
    pub fn check(&self) -> (verdict: Result<(), ScriptLoadError>)
        ensures
            verdict == self.outcome(),
    {
        if !self.readable {
            Err(ScriptLoadError::Unreadable)
        } else if !self.parsed {
            Err(ScriptLoadError::ParseFailure)
        } else if !(self.has_update && self.has_render) {
            Err(ScriptLoadError::MissingEntryPoint)
        } else {
            Ok(())
        }
    }
}

/// A component whose behaviour a script supplies.
#[derive(Debug)]
pub struct LuaComponent {
    pub name: String,
    pub script_path: String,
    /// What the script rendered at its last run.
    pub spans: Vec<Fragment>,
    /// Whether the last run of the script failed.
    pub degraded: bool,
}

/// The state of a script component.
pub struct LuaComponentView {
    pub name: Seq<char>,
    pub script_path: Seq<char>,
    pub spans: Seq<FragmentView>,
    pub degraded: bool,
}

impl View for LuaComponent {
    type V = LuaComponentView;

    open spec fn view(&self) -> LuaComponentView {
        LuaComponentView {
            name: self.name@,
            script_path: self.script_path@,
            spans: fragment_views(self.spans@),
            degraded: self.degraded,
        }
    }
}

impl LuaComponentView {
    /// A script component that has not run yet: it shows nothing.
    pub open spec fn fresh(name: Seq<char>, script_path: Seq<char>) -> LuaComponentView {
        LuaComponentView { name, script_path, spans: Seq::empty(), degraded: false }
    }

    /// The component after a run of its script: it shows what the script
    /// rendered, and nothing after a run that failed.
    pub open spec fn updated(self, run: Option<Seq<FragmentView>>) -> LuaComponentView {
        match run {
            Some(spans) => LuaComponentView { spans, degraded: false, ..self },
            None => LuaComponentView { spans: Seq::empty(), degraded: true, ..self },
        }
    }
}

/// The views of an optional run of fragments.
pub open spec fn run_view(run: Option<Vec<Fragment>>) -> Option<Seq<FragmentView>> {
    match run {
        Some(spans) => Some(fragment_views(spans@)),
        None => None,
    }
}

/// A copy of a run of fragments.
pub fn clone_fragments(spans: &Vec<Fragment>) -> (copy: Vec<Fragment>)
    ensures
        copy@ == spans@,
{
    let mut copy: Vec<Fragment> = Vec::new();
    let mut i: usize = 0;
    while i < spans.len()
        invariant
            i <= spans.len(),
            copy@ == spans@.subrange(0, i as int),
        decreases spans.len() - i,
    {
        copy.push(spans[i].clone());
        i += 1;
        assert(copy@ =~= spans@.subrange(0, i as int));
    }
    assert(spans@.subrange(0, i as int) =~= spans@);
    copy
}

impl LuaComponent {
    /// A component for the script at `script_path` that has not run yet.
    pub fn new(name: &str, script_path: &str) -> (component: LuaComponent)
        ensures
            component@ == LuaComponentView::fresh(name@, script_path@),
    {
        let component = LuaComponent {
            name: name.to_owned(),
            script_path: script_path.to_owned(),
            spans: Vec::new(),
            degraded: false,
        };
        assert(component@.spans =~= Seq::empty());
        component
    }

    /// Takes the outcome of a run of the script: what it rendered, or
    /// `None` where it failed.
    pub fn update(&mut self, run: Option<Vec<Fragment>>)
        ensures
            final(self)@ == old(self)@.updated(run_view(run)),
    {
        match run {
            Some(spans) => {
                self.spans = spans;
                self.degraded = false;
            },
            None => {
                self.spans = Vec::new();
                self.degraded = true;
                assert(self@.spans =~= Seq::empty());
            },
        }
    }

    /// What the component shows: the fragments of the script's last run.
    pub fn render_as_spans_with_colorize(&self, colorize: bool) -> (spans: Vec<Fragment>)
        ensures
            fragment_views(spans@) == self@.spans,
    {
        clone_fragments(&self.spans)
    }
}

impl Clone for LuaComponent {
    fn clone(&self) -> (copy: LuaComponent)
        ensures
            copy@ == self@,
    {
        LuaComponent {
            name: self.name.clone(),
            script_path: self.script_path.clone(),
            spans: clone_fragments(&self.spans),
            degraded: self.degraded,
        }
    }
}

/// The scripts that are registered, by name.
pub struct LuaComponentRegistry {
    components: NameTable<LuaComponent>,
}

impl View for LuaComponentRegistry {
    type V = Map<Seq<char>, LuaComponentView>;

    closed spec fn view(&self) -> Map<Seq<char>, LuaComponentView> {
        self.components@.map_values(|c: LuaComponent| c@)
    }
}

impl LuaComponentRegistry {
    /// A registry without scripts.
    pub fn new() -> (registry: LuaComponentRegistry)
        ensures
            registry@ == Map::<Seq<char>, LuaComponentView>::empty(),
    {
        let registry = LuaComponentRegistry { components: NameTable::new() };
        assert(registry@ =~= Map::<Seq<char>, LuaComponentView>::empty());
        registry
    }

    /// Registers the script at `script_path` under `name`, if its
    /// inspection allows it. A script registered under the name before is
    /// replaced. A script that is refused leaves the registry as it was.
    pub fn load_component(&mut self, name: &str, script_path: &str, inspection: ScriptInspection) -> (loaded:
        Result<(), ScriptLoadError>)
        ensures
            loaded == inspection.outcome(),
            loaded.is_ok() ==> final(self)@ == old(self)@.insert(
                name@,
                LuaComponentView::fresh(name@, script_path@),
            ),
            loaded.is_err() ==> *final(self) == *old(self),
    {
        match inspection.check() {
            Ok(()) => {
                let component = LuaComponent::new(name, script_path);
                self.components.insert(name.to_owned(), component);
                assert(self@ =~= old(self)@.insert(
                    name@,
                    LuaComponentView::fresh(name@, script_path@),
                ));
                Ok(())
            },
            Err(e) => Err(e),
        }
    }

    /// The script component registered under `name`.
    pub fn get_component(&self, name: &str) -> (found: Option<&LuaComponent>)
        ensures
            match found {
                Some(c) => self@.contains_key(name@) && self@[name@] == c@,
                None => !self@.contains_key(name@),
            },
    {
        self.components.get(name)
    }

    /// Takes the script under `name` out of the registry.
    pub fn remove(&mut self, name: &str)
        ensures
            final(self)@ == old(self)@.remove(name@),
    {
        self.components.remove(name);
        assert(self@ =~= old(self)@.remove(name@));
    }
}

} // verus!
