//! The decisions of the event loop: what a reload signal, a tick and a
//! terminal event do to the application. Waiting, drawing and running the
//! window manager's commands are left to the caller.

use vstd::prelude::*;
use vstd::string::*;
use crate::bars::{rendered_bar, LeftBar, MiddleBar, Rect, RenderedBar, RenderedBarView, RightBar};
use crate::click::{
    click_area_views, dispatched, find_click_area, first_hit, ClickArea, ClickAreaView, ClickTarget,
    ClickTargetView,
};
use crate::component_manager::{
    live_set_of_text, reading_views, ComponentManager, ManagerView, Reading,
};
use crate::config::ConfigError;
use crate::style::{fragment_views, Fragment, FragmentView};

verus! {

/// The key of a key event, as far as the loop tells keys apart.
#[derive(Debug, Clone, Copy, PartialEq, Eq, Structural)]
pub enum KeyCode {
    Esc,
    Char(char),
    Other,
}

/// The modifier keys held during a key event.
#[derive(Debug, Clone, Copy, PartialEq, Eq, Structural)]
pub struct KeyModifiers {
    pub shift: bool,
    pub control: bool,
    pub alt: bool,
    pub super_key: bool,
    pub hyper: bool,
    pub meta: bool,
}

/// Whether a key went down, repeats or came up.
#[derive(Debug, Clone, Copy, PartialEq, Eq, Structural)]
pub enum KeyEventKind {
    Press,
    Repeat,
    Release,
}

/// A key event.
#[derive(Debug, Clone, Copy, PartialEq, Eq, Structural)]
pub struct KeyEvent {
    pub code: KeyCode,
    pub modifiers: KeyModifiers,
    pub kind: KeyEventKind,
}

/// A mouse button.
#[derive(Debug, Clone, Copy, PartialEq, Eq, Structural)]
pub enum MouseButton {
    Left,
    Right,
    Middle,
}

/// What the mouse did.
#[derive(Debug, Clone, Copy, PartialEq, Eq, Structural)]
pub enum MouseEventKind {
    Down(MouseButton),
    Up(MouseButton),
    Drag(MouseButton),
    Moved,
    Scroll,
}

/// A mouse event at a cell.
#[derive(Debug, Clone, Copy, PartialEq, Eq, Structural)]
pub struct MouseEvent {
    pub kind: MouseEventKind,
    pub column: u16,
    pub row: u16,
}

/// A terminal event.
#[derive(Debug, Clone, Copy, PartialEq, Eq, Structural)]
pub enum Event {
    Key(KeyEvent),
    Mouse(MouseEvent),
    Resize(u16, u16),
    Other,
}

/// What a file watcher saw happen to a file.
#[derive(Debug, Clone, Copy, PartialEq, Eq, Structural)]
pub enum WatchEventKind {
    Create,
    Modify,
    Remove,
    Access,
    Other,
}

/// A command for the window manager.
#[derive(Debug)]
pub struct Dispatch {
    pub program: String,
    pub args: Vec<String>,
}

/// A command by content.
pub struct DispatchView {
    pub program: Seq<char>,
    pub args: Seq<Seq<char>>,
}

impl View for Dispatch {
    type V = DispatchView;

    open spec fn view(&self) -> DispatchView {
        DispatchView { program: self.program@, args: self.args@.map_values(|a: String| a@) }
    }
}

impl KeyModifiers {
    /// Control is held and no other modifier is.
    pub open spec fn is_control(self) -> bool {
        self.control && !self.shift && !self.alt && !self.super_key && !self.hyper && !self.meta
    }
}

impl KeyEvent {
    /// Whether the key asks the application to quit: Escape or `q` with
    /// any modifiers, `c` or `C` with Control alone.
    pub open spec fn is_quit_key(self) -> bool {
        ||| self.code == KeyCode::Esc
        ||| self.code == KeyCode::Char('q')
        ||| (self.modifiers.is_control() && (self.code == KeyCode::Char('c') || self.code
            == KeyCode::Char('C')))
    }
}

/// Whether a watcher event asks for a reload: its first path is the
/// configuration file, and the file was created or modified.
/// `first_path_is_config` is `None` for an event without paths.
pub fn is_reload_trigger(first_path_is_config: Option<bool>, kind: WatchEventKind) -> (reload: bool)
    ensures
        reload == (first_path_is_config == Some(true) && (kind == WatchEventKind::Create || kind
            == WatchEventKind::Modify)),
{
    match first_path_is_config {
        Some(true) => match kind {
            WatchEventKind::Create => true,
            WatchEventKind::Modify => true,
            _ => false,
        },
        _ => false,
    }
}

/// The command that a click target stands for.
pub open spec fn command_for(target: ClickTargetView) -> DispatchView {
    match target {
        ClickTargetView::Workspace(id) => DispatchView {
            program: "hyprctl"@,
            args: seq!["dispatch"@, "workspace"@, id],
        },
        ClickTargetView::Window(address) => DispatchView {
            program: "hyprctl"@,
            args: seq!["dispatch"@, "focuswindow"@, address],
        },
    }
}

/// The command that a mouse event sets off among `areas`: a left button
/// going down sets off the command of the region it reaches; anything else
/// sets off nothing.
pub open spec fn click_command(areas: Seq<ClickAreaView>, mouse: MouseEvent) -> Option<DispatchView> {
    if mouse.kind == MouseEventKind::Down(MouseButton::Left) {
        match dispatched(areas, mouse.column as int, mouse.row as int) {
            Some(target) => Some(command_for(target)),
            None => None,
        }
    } else {
        None
    }
}

/// The view of an optional command.
pub open spec fn optional_dispatch_view(command: Option<Dispatch>) -> Option<DispatchView> {
    match command {
        Some(c) => Some(c@),
        None => None,
    }
}

/// The state of the application.
pub struct AppView {
    pub running: bool,
    pub manager: ManagerView,
    pub click_areas: Seq<ClickAreaView>,
}

/// The three bars of one frame.
#[derive(Debug)]
pub struct Frame {
    pub left: Option<Vec<Fragment>>,
    pub middle: Option<Vec<Fragment>>,
    pub right: Option<Vec<Fragment>>,
}

/// A frame by content.
pub struct FrameView {
    pub left: Option<Seq<FragmentView>>,
    pub middle: Option<Seq<FragmentView>>,
    pub right: Option<Seq<FragmentView>>,
}

/// The view of an optional line.
pub open spec fn line_view(line: Option<Vec<Fragment>>) -> Option<Seq<FragmentView>> {
    match line {
        Some(l) => Some(fragment_views(l@)),
        None => None,
    }
}

impl View for Frame {
    type V = FrameView;

    open spec fn view(&self) -> FrameView {
        FrameView {
            left: line_view(self.left),
            middle: line_view(self.middle),
            right: line_view(self.right),
        }
    }
}

impl AppView {
    /// What the left bar draws into `area`.
    pub open spec fn left(self, area: Rect) -> RenderedBarView {
        rendered_bar(self.manager.live.left.components, self.manager.live.colorize, area)
    }

    /// What the middle bar draws into `area`.
    pub open spec fn middle(self, area: Rect) -> RenderedBarView {
        rendered_bar(self.manager.live.middle.components, self.manager.live.colorize, area)
    }

    /// What the right bar draws into `area`.
    pub open spec fn right(self, area: Rect) -> RenderedBarView {
        rendered_bar(self.manager.live.right.components, self.manager.live.colorize, area)
    }

    /// The frame that is drawn into the three areas.
    pub open spec fn frame(self, left: Rect, middle: Rect, right: Rect) -> FrameView {
        FrameView {
            left: self.left(left).line,
            middle: self.middle(middle).line,
            right: self.right(right).line,
        }
    }

    /// The click regions of a frame: those of the left bar first, then
    /// those of the middle and of the right one.
    pub open spec fn frame_click_areas(self, left: Rect, middle: Rect, right: Rect) -> Seq<ClickAreaView> {
        self.left(left).click_areas + self.middle(middle).click_areas + self.right(
            right,
        ).click_areas
    }

    /// The application after a terminal event: a quit key that is pressed
    /// stops it, nothing else changes it.
    pub open spec fn after_event(self, event: Option<Event>) -> AppView {
        match event {
            Some(Event::Key(key)) => if key.kind == KeyEventKind::Press && key.is_quit_key() {
                AppView { running: false, ..self }
            } else {
                self
            },
            _ => self,
        }
    }

    /// The command that a terminal event sets off.
    pub open spec fn event_command(self, event: Option<Event>) -> Option<DispatchView> {
        match event {
            Some(Event::Mouse(mouse)) => click_command(self.click_areas, mouse),
            _ => None,
        }
    }
}

/// The application: whether it runs, its components and bars, and the
/// click regions of the frame that is on screen.
pub struct App {
    running: bool,
    component_manager: ComponentManager,
    left_bar: LeftBar,
    middle_bar: MiddleBar,
    right_bar: RightBar,
    click_areas: Vec<ClickArea>,
}

impl View for App {
    type V = AppView;

    closed spec fn view(&self) -> AppView {
        AppView {
            running: self.running,
            manager: self.component_manager@,
            click_areas: click_area_views(self.click_areas@),
        }
    }
}

impl App {
    /// A running application around `component_manager`, with no frame on
    /// screen yet.
    pub fn new(component_manager: ComponentManager) -> (app: App)
        ensures
            app@ == (AppView {
                running: true,
                manager: component_manager@,
                click_areas: Seq::empty(),
            }),
    {
        let app = App {
            running: true,
            component_manager,
            left_bar: LeftBar::new(),
            middle_bar: MiddleBar::new(),
            right_bar: RightBar::new(),
            click_areas: Vec::new(),
        };
        assert(app@.click_areas =~= Seq::empty());
        app
    }

    /// Whether the loop goes on.
    pub fn is_running(&self) -> (running: bool)
        ensures
            running == self@.running,
    {
        self.running
    }

    /// The component manager.
    pub fn component_manager(&self) -> (manager: &ComponentManager)
        ensures
            manager@ == self@.manager,
    {
        &self.component_manager
    }

    /// The click regions of the frame on screen.
    pub fn click_areas(&self) -> (areas: &Vec<ClickArea>)
        ensures
            click_area_views(areas@) == self@.click_areas,
    {
        &self.click_areas
    }

    /// Handles a reload signal: the configuration in `text` takes the
    /// place of the live set, or the live set stays where the
    /// configuration is refused. Nothing is drawn.
    pub fn reload(&mut self, text: &str, now: u64) -> (reloaded: Result<(), ConfigError>)
        ensures
            match live_set_of_text(old(self)@.manager.factories, old(self)@.manager.scripts, text@, now) {
                Ok(set) => reloaded.is_ok() && final(self)@ == (AppView {
                    manager: ManagerView { live: set, ..old(self)@.manager },
                    ..old(self)@
                }),
                Err(e) => reloaded == Err::<(), ConfigError>(e) && final(self)@ == old(self)@,
            },
    {
        self.component_manager.reload_from_text(text, now)
    }

    /// Updates the components and the bars with the readings of this
    /// tick. Returns whether every component had a reading that it
    /// accepts.
    pub fn update_components(&mut self, readings: Vec<Reading>) -> (refreshed: bool)
        ensures
            final(self)@ == (AppView {
                manager: ManagerView {
                    live: old(self)@.manager.live.updated(reading_views(readings@)),
                    ..old(self)@.manager
                },
                ..old(self)@
            }),
            refreshed == old(self)@.manager.live.all_accept(reading_views(readings@)),
    {
        let refreshed = self.component_manager.update(readings);
        self.left_bar.update();
        self.middle_bar.update();
        self.right_bar.update();
        refreshed
    }

    /// Draws a frame into the three areas. The click regions of the frame
    /// before are dropped, and those of this frame are kept in the order
    /// left, middle, right.
    pub fn render(&mut self, left: Rect, middle: Rect, right: Rect) -> (frame: Frame)
        ensures
            frame@ == old(self)@.frame(left, middle, right),
            final(self)@ == (AppView {
                click_areas: old(self)@.frame_click_areas(left, middle, right),
                ..old(self)@
            }),
    {
        self.click_areas.clear();
        let left_bar = self.left_bar.render(left, &self.component_manager);
        let middle_bar = self.middle_bar.render(middle, &self.component_manager);
        let right_bar = self.right_bar.render(right, &self.component_manager);
        let RenderedBar { line: left_line, click_areas: mut left_areas } = left_bar;
        let RenderedBar { line: middle_line, click_areas: mut middle_areas } = middle_bar;
        let RenderedBar { line: right_line, click_areas: mut right_areas } = right_bar;
        let ghost l = click_area_views(left_areas@);
        let ghost m = click_area_views(middle_areas@);
        let ghost r = click_area_views(right_areas@);
        self.click_areas.append(&mut left_areas);
        self.click_areas.append(&mut middle_areas);
        self.click_areas.append(&mut right_areas);
        assert(click_area_views(self.click_areas@) =~= l + m + r);
        Frame { left: left_line, middle: middle_line, right: right_line }
    }

    /// Handles the terminal event that the poll gave, if it gave one.
    /// Returns the command to run for the window manager, if the event
    /// sets one off.
    pub fn handle_crossterm_events(&mut self, event: Option<Event>) -> (command: Option<Dispatch>)
        ensures
            final(self)@ == old(self)@.after_event(event),
            optional_dispatch_view(command) == old(self)@.event_command(event),
    {
        match event {
            Some(Event::Key(key)) => {
                if key.kind == KeyEventKind::Press {
                    self.on_key_event(key);
                }
                None
            },
            Some(Event::Mouse(mouse_event)) => self.on_mouse_event(mouse_event),
            _ => None,
        }
    }

    /// Handles a key that was pressed: a quit key stops the application.
    pub fn on_key_event(&mut self, key: KeyEvent)
        ensures
            final(self)@ == (AppView {
                running: old(self)@.running && !key.is_quit_key(),
                ..old(self)@
            }),
    {
        let quit = match key.code {
            KeyCode::Esc => true,
            KeyCode::Char(c) => c == 'q' || ((c == 'c' || c == 'C') && key.modifiers.control
                && !key.modifiers.shift && !key.modifiers.alt && !key.modifiers.super_key
                && !key.modifiers.hyper && !key.modifiers.meta),
            KeyCode::Other => false,
        };
        if quit {
            self.quit();
        }
    }

    /// Handles a mouse event: a left button going down on a click region
    /// gives the command of the first region that contains the cell.
    pub fn on_mouse_event(&mut self, mouse_event: MouseEvent) -> (command: Option<Dispatch>)
        ensures
            final(self)@ == old(self)@,
            optional_dispatch_view(command) == click_command(old(self)@.click_areas, mouse_event),
    {
        match mouse_event.kind {
            MouseEventKind::Down(MouseButton::Left) => {
                match find_click_area(&self.click_areas, mouse_event.column, mouse_event.row) {
                    Some(i) => {
                        assert(click_area_views(self.click_areas@)[i as int] == self.click_areas@[i as int]@);
                        Some(App::handle_click(&self.click_areas[i].target))
                    },
                    None => None,
                }
            },
            _ => None,
        }
    }

    /// The command that focuses what `target` names.
    pub fn handle_click(target: &ClickTarget) -> (command: Dispatch)
        ensures
            command@ == command_for(target@),
    {
        let mut args: Vec<String> = Vec::new();
        args.push(String::from_str("dispatch"));
        match target {
            ClickTarget::Workspace(workspace_id) => {
                args.push(String::from_str("workspace"));
                args.push(workspace_id.clone());
            },
            ClickTarget::Window(address) => {
                args.push(String::from_str("focuswindow"));
                args.push(address.clone());
            },
        }
        let command = Dispatch { program: String::from_str("hyprctl"), args };
        assert(command@.args =~= command_for(target@).args);
        command
    }

    /// Stops the application.
    pub fn quit(&mut self)
        ensures
            final(self)@ == (AppView { running: false, ..old(self)@ }),
    {
        self.running = false;
    }
}

/// Quitting is final: no terminal event makes a stopped application run
/// again, and none changes anything but whether it runs.
pub proof fn lemma_quitting_is_final(app: AppView, event: Option<Event>)
    ensures
        !app.running ==> !app.after_event(event).running,
        app.after_event(event).manager == app.manager,
        app.after_event(event).click_areas == app.click_areas,
{
}

/// A click sets off at most one command, that of the first region in the
/// order left, middle, right that contains the cell: the regions of the
/// left bar come before those of the middle bar, and these before those of
/// the right bar.
pub proof fn lemma_click_priority(app: AppView, left: Rect, middle: Rect, right: Rect, px: int, py: int)
    ensures
        ({
            let l = app.left(left).click_areas;
            let m = app.middle(middle).click_areas;
            let r = app.right(right).click_areas;
            let all = app.frame_click_areas(left, middle, right);
            dispatched(all, px, py) == if dispatched(l, px, py).is_some() {
                dispatched(l, px, py)
            } else if dispatched(m, px, py).is_some() {
                dispatched(m, px, py)
            } else {
                dispatched(r, px, py)
            }
        }),
{
    let l = app.left(left).click_areas;
    let m = app.middle(middle).click_areas;
    let r = app.right(right).click_areas;
    crate::click::lemma_dispatch_append(l, m, px, py);
    crate::click::lemma_dispatch_append(l + m, r, px, py);
}

} // verus!
