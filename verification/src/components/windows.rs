//! The open windows, one icon each.

use vstd::prelude::*;
use vstd::string::*;
use crate::click::{ClickArea, ClickAreaView, ClickTarget, ClickTargetView, click_area_views};
use crate::style::{
    column_after, fragment_views, lemma_column_after_twice, total_width, Color, Fragment, FragmentView,
};
use crate::text::{chars_of, equals, lowercase_of, to_lowercase};

verus! {

/// The icon of an application whose lower-cased class is `c`: the class is
/// looked up whole, and one that is not listed gets the generic icon.
pub open spec fn app_icon_for(c: Seq<char>) -> Seq<char> {
    if c == "firefox"@ || c == "firefox-developer-edition"@ {
        "َ°ˆ¹"@
    } else if c == "google-chrome"@ || c == "chrome"@ {
        "َ°ٹ¯"@
    } else if c == "chromium"@ {
        "َ°ٹ¯"@
    } else if c == "brave-browser"@ {
        "َ°–ں"@
    } else if c == "librewolf"@ {
        "َ°ˆ¹"@
    } else if c == "vivaldi"@ {
        "َ°–ں"@
    } else if c == "opera"@ {
        "َ°–ں"@
    } else if c == "edge"@ {
        "َ°‡©"@
    } else if c == "helium"@ {
        "َ°–ں"@
    } else if c == "kitty"@ {
        "َ°„›"@
    } else if c == "alacritty"@ {
        "َ°†چ"@
    } else if c == "gnome-terminal"@ {
        "َ°†چ"@
    } else if c == "konsole"@ {
        "َ°†چ"@
    } else if c == "xterm"@ {
        "َ°†چ"@
    } else if c == "neovide"@ {
        "îک«"@
    } else if c == "nvim"@ || c == "neovim"@ {
        "îک«"@
    } else if c == "vim"@ {
        "îں…"@
    } else if c == "emacs"@ {
        "َ°چ¹"@
    } else if c == "code"@ || c == "code-oss"@ {
        "َ°¨‍"@
    } else if c == "sublime_text"@ {
        "َ°…ھ"@
    } else if c == "zathura"@ {
        "َ°ˆ¦"@
    } else if c == "evince"@ {
        "َ°ˆ¦"@
    } else if c == "okular"@ {
        "َ°ˆ¦"@
    } else if c == "qpdfview"@ {
        "َ°ˆ¦"@
    } else if c == "mupdf"@ {
        "َ°ˆ¦"@
    } else if c == "qview"@ {
        "َ°‹©"@
    } else if c == "feh"@ {
        "َ°‹©"@
    } else if c == "nomacs"@ {
        "َ°‹©"@
    } else if c == "gwenview"@ {
        "َ°‹©"@
    } else if c == "eog"@ {
        "َ°‹©"@
    } else if c == "sxiv"@ {
        "َ°‹©"@
    } else if c == "mpv"@ {
        "َ°گ¹"@
    } else if c == "vlc"@ {
        "َ°•¼"@
    } else if c == "smplayer"@ {
        "َ°گ¹"@
    } else if c == "celluloid"@ {
        "َ°گ¹"@
    } else if c == "spotify"@ {
        "َ°“‡"@
    } else if c == "rhythmbox"@ {
        "َ°“‡"@
    } else if c == "audacious"@ {
        "َ°“‡"@
    } else if c == "cmus"@ {
        "َ°“‡"@
    } else if c == "ncmpcpp"@ {
        "َ°“‡"@
    } else if c == "gimp"@ {
        "َ°ڈک"@
    } else if c == "aseprite"@ {
        "َ°†§"@
    } else if c == "inkscape"@ {
        "َ°‌«"@
    } else if c == "blender"@ {
        "َ°‚«"@
    } else if c == "krita"@ {
        "َ°ڈک"@
    } else if c == "obs"@ {
        "َ°•€"@
    } else if c == "discord"@ {
        "َ°™¯"@
    } else if c == "telegramdesktop"@ || c == "telegram"@ {
        "َ°ˆ¨"@
    } else if c == "slack"@ {
        "َ°’±"@
    } else if c == "signal"@ {
        "َ°چ¦"@
    } else if c == "thunderbird"@ {
        "َ°‡°"@
    } else if c == "geary"@ {
        "َ°‡°"@
    } else if c == "thunar"@ {
        "َ°‰‹"@
    } else if c == "dolphin"@ {
        "َ°‰‹"@
    } else if c == "nautilus"@ {
        "َ°‰‹"@
    } else if c == "pcmanfm"@ {
        "َ°‰‹"@
    } else if c == "ranger"@ {
        "َ°‰‹"@
    } else if c == "lf"@ {
        "َ°‰‹"@
    } else if c == "htop"@ || c == "btop"@ {
        "َ°”ڑ"@
    } else if c == "nvtop"@ {
        "َ°چ›"@
    } else if c == "pavucontrol"@ {
        "َ°‌ڑ"@
    } else if c == "networkmanager_dmenu"@ {
        "َ°¤¨"@
    } else if c == "libreoffice-writer"@ {
        "َ°ڈھ"@
    } else if c == "libreoffice-calc"@ {
        "َ°ˆ›"@
    } else if c == "libreoffice-impress"@ {
        "َ°ژ§"@
    } else if c == "onlyoffice-desktopeditors"@ {
        "َ°ڈھ"@
    } else if c == "postman"@ {
        "َ°®®"@
    } else if c == "insomnia"@ {
        "َ°ک¦"@
    } else if c == "gitkraken"@ {
        "َ°ٹ¢"@
    } else if c == "figma-linux"@ {
        "َ°؟­"@
    } else if c == "wine"@ || c == "winecfg"@ {
        "َ°،¶"@
    } else if c == "steam"@ {
        "َ°““"@
    } else if c == "lutris"@ {
        "َ°®­"@
    } else if c == "heroic"@ {
        "َ°”‘"@
    } else if c == "minecraft"@ {
        "َ°چ³"@
    } else {
        "َ°چœ"@
    }
}

/// Looks up the icon for a class that is already in lower case.
pub fn app_icon_of_lowercase(lower: &str) -> (icon: String)
    ensures
        icon@ == app_icon_for(lower@),
{
    let c = chars_of(lower);
    if equals(&c, "firefox") || equals(&c, "firefox-developer-edition") {
        String::from_str("َ°ˆ¹")
    } else if equals(&c, "google-chrome") || equals(&c, "chrome") {
        String::from_str("َ°ٹ¯")
    } else if equals(&c, "chromium") {
        String::from_str("َ°ٹ¯")
    } else if equals(&c, "brave-browser") {
        String::from_str("َ°–ں")
    } else if equals(&c, "librewolf") {
        String::from_str("َ°ˆ¹")
    } else if equals(&c, "vivaldi") {
        String::from_str("َ°–ں")
    } else if equals(&c, "opera") {
        String::from_str("َ°–ں")
    } else if equals(&c, "edge") {
        String::from_str("َ°‡©")
    } else if equals(&c, "helium") {
        String::from_str("َ°–ں")
    } else if equals(&c, "kitty") {
        String::from_str("َ°„›")
    } else if equals(&c, "alacritty") {
        String::from_str("َ°†چ")
    } else if equals(&c, "gnome-terminal") {
        String::from_str("َ°†چ")
    } else if equals(&c, "konsole") {
        String::from_str("َ°†چ")
    } else if equals(&c, "xterm") {
        String::from_str("َ°†چ")
    } else if equals(&c, "neovide") {
        String::from_str("îک«")
    } else if equals(&c, "nvim") || equals(&c, "neovim") {
        String::from_str("îک«")
    } else if equals(&c, "vim") {
        String::from_str("îں…")
    } else if equals(&c, "emacs") {
        String::from_str("َ°چ¹")
    } else if equals(&c, "code") || equals(&c, "code-oss") {
        String::from_str("َ°¨‍")
    } else if equals(&c, "sublime_text") {
        String::from_str("َ°…ھ")
    } else if equals(&c, "zathura") {
        String::from_str("َ°ˆ¦")
    } else if equals(&c, "evince") {
        String::from_str("َ°ˆ¦")
    } else if equals(&c, "okular") {
        String::from_str("َ°ˆ¦")
    } else if equals(&c, "qpdfview") {
        String::from_str("َ°ˆ¦")
    } else if equals(&c, "mupdf") {
        String::from_str("َ°ˆ¦")
    } else if equals(&c, "qview") {
        String::from_str("َ°‹©")
    } else if equals(&c, "feh") {
        String::from_str("َ°‹©")
    } else if equals(&c, "nomacs") {
        String::from_str("َ°‹©")
    } else if equals(&c, "gwenview") {
        String::from_str("َ°‹©")
    } else if equals(&c, "eog") {
        String::from_str("َ°‹©")
    } else if equals(&c, "sxiv") {
        String::from_str("َ°‹©")
    } else if equals(&c, "mpv") {
        String::from_str("َ°گ¹")
    } else if equals(&c, "vlc") {
        String::from_str("َ°•¼")
    } else if equals(&c, "smplayer") {
        String::from_str("َ°گ¹")
    } else if equals(&c, "celluloid") {
        String::from_str("َ°گ¹")
    } else if equals(&c, "spotify") {
        String::from_str("َ°“‡")
    } else if equals(&c, "rhythmbox") {
        String::from_str("َ°“‡")
    } else if equals(&c, "audacious") {
        String::from_str("َ°“‡")
    } else if equals(&c, "cmus") {
        String::from_str("َ°“‡")
    } else if equals(&c, "ncmpcpp") {
        String::from_str("َ°“‡")
    } else if equals(&c, "gimp") {
        String::from_str("َ°ڈک")
    } else if equals(&c, "aseprite") {
        String::from_str("َ°†§")
    } else if equals(&c, "inkscape") {
        String::from_str("َ°‌«")
    } else if equals(&c, "blender") {
        String::from_str("َ°‚«")
    } else if equals(&c, "krita") {
        String::from_str("َ°ڈک")
    } else if equals(&c, "obs") {
        String::from_str("َ°•€")
    } else if equals(&c, "discord") {
        String::from_str("َ°™¯")
    } else if equals(&c, "telegramdesktop") || equals(&c, "telegram") {
        String::from_str("َ°ˆ¨")
    } else if equals(&c, "slack") {
        String::from_str("َ°’±")
    } else if equals(&c, "signal") {
        String::from_str("َ°چ¦")
    } else if equals(&c, "thunderbird") {
        String::from_str("َ°‡°")
    } else if equals(&c, "geary") {
        String::from_str("َ°‡°")
    } else if equals(&c, "thunar") {
        String::from_str("َ°‰‹")
    } else if equals(&c, "dolphin") {
        String::from_str("َ°‰‹")
    } else if equals(&c, "nautilus") {
        String::from_str("َ°‰‹")
    } else if equals(&c, "pcmanfm") {
        String::from_str("َ°‰‹")
    } else if equals(&c, "ranger") {
        String::from_str("َ°‰‹")
    } else if equals(&c, "lf") {
        String::from_str("َ°‰‹")
    } else if equals(&c, "htop") || equals(&c, "btop") {
        String::from_str("َ°”ڑ")
    } else if equals(&c, "nvtop") {
        String::from_str("َ°چ›")
    } else if equals(&c, "pavucontrol") {
        String::from_str("َ°‌ڑ")
    } else if equals(&c, "networkmanager_dmenu") {
        String::from_str("َ°¤¨")
    } else if equals(&c, "libreoffice-writer") {
        String::from_str("َ°ڈھ")
    } else if equals(&c, "libreoffice-calc") {
        String::from_str("َ°ˆ›")
    } else if equals(&c, "libreoffice-impress") {
        String::from_str("َ°ژ§")
    } else if equals(&c, "onlyoffice-desktopeditors") {
        String::from_str("َ°ڈھ")
    } else if equals(&c, "postman") {
        String::from_str("َ°®®")
    } else if equals(&c, "insomnia") {
        String::from_str("َ°ک¦")
    } else if equals(&c, "gitkraken") {
        String::from_str("َ°ٹ¢")
    } else if equals(&c, "figma-linux") {
        String::from_str("َ°؟­")
    } else if equals(&c, "wine") || equals(&c, "winecfg") {
        String::from_str("َ°،¶")
    } else if equals(&c, "steam") {
        String::from_str("َ°““")
    } else if equals(&c, "lutris") {
        String::from_str("َ°®­")
    } else if equals(&c, "heroic") {
        String::from_str("َ°”‘")
    } else if equals(&c, "minecraft") {
        String::from_str("َ°چ³")
    } else {
        String::from_str("َ°چœ")
    }
}

/// The icon of an application of this class.
pub fn get_app_icon(class: &str) -> (icon: String)
    ensures
        icon@ == app_icon_for(lowercase_of(class@)),
{
    let lower = to_lowercase(class);
    app_icon_of_lowercase(lower.as_str())
}

/// The workspace that a window is on, as the window manager reports it.
#[derive(Debug)]
pub struct Workspace {
    pub id: i32,
}

/// A window as the window manager reports it.
#[derive(Debug)]
pub struct Window {
    pub address: String,
    pub class: String,
    pub workspace: Workspace,
}

/// A window as the bar shows it.
#[derive(Debug)]
pub struct WindowInfo {
    pub address: String,
    pub icon: String,
}

/// The list of open windows.
#[derive(Debug)]
pub struct Windows {
    pub windows: Vec<WindowInfo>,
    pub active_window: String,
}

/// A reported window.
pub struct WindowView {
    pub address: Seq<char>,
    pub class: Seq<char>,
    pub workspace_id: i32,
}

/// A shown window: its address and its icon.
pub struct WindowInfoView {
    pub address: Seq<char>,
    pub icon: Seq<char>,
}

/// The state of the window list.
pub struct WindowsView {
    pub windows: Seq<WindowInfoView>,
    pub active_window: Seq<char>,
}

impl View for Window {
    type V = WindowView;

    open spec fn view(&self) -> WindowView {
        WindowView { address: self.address@, class: self.class@, workspace_id: self.workspace.id }
    }
}

impl View for WindowInfo {
    type V = WindowInfoView;

    open spec fn view(&self) -> WindowInfoView {
        WindowInfoView { address: self.address@, icon: self.icon@ }
    }
}

/// The views of a run of reported windows.
pub open spec fn reported_views(windows: Seq<Window>) -> Seq<WindowView> {
    windows.map_values(|w: Window| w@)
}

/// The views of a run of shown windows.
pub open spec fn info_views(windows: Seq<WindowInfo>) -> Seq<WindowInfoView> {
    windows.map_values(|w: WindowInfo| w@)
}

impl View for Windows {
    type V = WindowsView;

    open spec fn view(&self) -> WindowsView {
        WindowsView { windows: info_views(self.windows@), active_window: self.active_window@ }
    }
}

impl WindowView {
    /// Whether the window is on an ordinary workspace; special workspaces
    /// have no positive number.
    pub open spec fn is_listed(self) -> bool {
        self.workspace_id > 0
    }

    /// The window as the bar shows it.
    pub open spec fn info(self) -> WindowInfoView {
        WindowInfoView { address: self.address, icon: app_icon_for(lowercase_of(self.class)) }
    }
}

/// The windows to show: those on ordinary workspaces, in the reported
/// order.
pub open spec fn listed_windows(reported: Seq<WindowView>) -> Seq<WindowInfoView>
    decreases reported.len(),
{
    if reported.len() == 0 {
        Seq::empty()
    } else if reported.last().is_listed() {
        listed_windows(reported.drop_last()).push(reported.last().info())
    } else {
        listed_windows(reported.drop_last())
    }
}

/// A reading of the window manager: the windows to show and the address of
/// the focused one, which is empty where none is known. There is no
/// reading where the window manager did not list its clients.
pub open spec fn windows_reading(
    clients: Option<Seq<WindowView>>,
    active_address: Option<Seq<char>>,
) -> Option<(Seq<WindowInfoView>, Seq<char>)> {
    match clients {
        Some(reported) => Some(
            (
                listed_windows(reported),
                match active_address {
                    Some(a) => a,
                    None => Seq::empty(),
                },
            ),
        ),
        None => None,
    }
}

/// The view of a reading.
pub open spec fn reading_view(reading: Option<(Vec<WindowInfo>, String)>) -> Option<
    (Seq<WindowInfoView>, Seq<char>),
> {
    match reading {
        Some((windows, active)) => Some((info_views(windows@), active@)),
        None => None,
    }
}

/// Turns what the window manager reported into a reading. `clients` is its
/// list of windows, if it gave one; `active_address` the address of the
/// focused window, if it named one.
pub fn get_windows(clients: Option<&Vec<Window>>, active_address: Option<&str>) -> (reading: Option<
    (Vec<WindowInfo>, String),
>)
    ensures
        reading_view(reading) == windows_reading(
            match clients {
                Some(c) => Some(reported_views(c@)),
                None => None,
            },
            match active_address {
                Some(a) => Some(a@),
                None => None,
            },
        ),
{
    let reported = match clients {
        Some(c) => c,
        None => {
            return None;
        },
    };
    let active = match active_address {
        Some(a) => a.to_owned(),
        None => String::new(),
    };
    let mut infos: Vec<WindowInfo> = Vec::new();
    let mut i: usize = 0;
    while i < reported.len()
        invariant
            i <= reported.len(),
            info_views(infos@) == listed_windows(reported_views(reported@).subrange(0, i as int)),
        decreases reported.len() - i,
    {
        let ghost before = reported_views(reported@).subrange(0, i as int);
        let ghost after = reported_views(reported@).subrange(0, i + 1);
        let w = &reported[i];
        proof {
            assert(after.drop_last() =~= before);
            assert(after.last() == w@);
        }
        if w.workspace.id > 0 {
            infos.push(WindowInfo { address: w.address.clone(), icon: get_app_icon(w.class.as_str()) });
            assert(info_views(infos@) =~= listed_windows(after));
        }
        i += 1;
    }
    assert(reported_views(reported@).subrange(0, i as int) =~= reported_views(reported@));
    Some((infos, active))
}

impl WindowInfoView {
    /// How a window renders: its icon between two blanks, black on white
    /// for the focused window and white for the others.
    pub open spec fn rendered(self, active_window: Seq<char>) -> FragmentView {
        let span = FragmentView::raw(" "@ + self.icon + " "@);
        if self.address == active_window {
            span.bg(Color::White).fg(Color::Black)
        } else {
            span.fg(Color::White)
        }
    }
}

impl WindowsView {
    /// A window list filled with a first reading; empty without one.
    pub open spec fn configured(reading: Option<(Seq<WindowInfoView>, Seq<char>)>) -> WindowsView {
        match reading {
            Some((windows, active_window)) => WindowsView { windows, active_window },
            None => WindowsView { windows: Seq::empty(), active_window: Seq::empty() },
        }
    }

    /// What the window list renders: one fragment per window, in order.
    pub open spec fn rendered(self) -> Seq<FragmentView> {
        self.windows.map_values(|w: WindowInfoView| w.rendered(self.active_window))
    }

    /// The click region of the window at position `index` when the list is
    /// laid out from `(origin_x, origin_y)`: the cells of its fragment, one
    /// row high, bound to the window's address.
    pub open spec fn click_area(self, index: int, origin_x: u16, origin_y: u16) -> ClickAreaView {
        ClickAreaView {
            x: column_after(origin_x, total_width(self.rendered().subrange(0, index))),
            y: origin_y,
            width: column_after(0, self.rendered()[index].width()),
            height: 1,
            target: ClickTargetView::Window(self.windows[index].address),
        }
    }

    /// The click regions of the list, one per window, in order.
    pub open spec fn click_areas(self, origin_x: u16, origin_y: u16) -> Seq<ClickAreaView> {
        Seq::new(self.windows.len(), |i: int| self.click_area(i, origin_x, origin_y))
    }
}

impl WindowInfo {
    /// A shown window.
    pub fn new(address: String, icon: String) -> (window: WindowInfo)
        ensures
            window@ == (WindowInfoView { address: address@, icon: icon@ }),
    {
        WindowInfo { address, icon }
    }

    /// Renders the window as one fragment.
    pub fn render(&self, active_window: &str) -> (span: Fragment)
        ensures
            span@ == self@.rendered(active_window@),
    {
        let mut content = String::from_str(" ");
        content.append(self.icon.as_str());
        content.append(" ");
        let address = chars_of(self.address.as_str());
        if equals(&address, active_window) {
            Fragment::raw(content).bg(Color::White).fg(Color::Black)
        } else {
            Fragment::raw(content).fg(Color::White)
        }
    }
}

impl Clone for WindowInfo {
    fn clone(&self) -> (copy: WindowInfo)
        ensures
            copy == *self,
    {
        WindowInfo { address: self.address.clone(), icon: self.icon.clone() }
    }
}

impl Windows {
    /// A window list filled with a first reading.
    pub fn new(reading: Option<(Vec<WindowInfo>, String)>) -> (list: Windows)
        ensures
            list@ == WindowsView::configured(reading_view(reading)),
    {
        match reading {
            Some((windows, active_window)) => Windows { windows, active_window },
            None => {
                let list = Windows { windows: Vec::new(), active_window: String::new() };
                assert(list@.windows =~= Seq::empty());
                list
            },
        }
    }

    /// Takes a new reading; without one the list is empty.
    pub fn update(&mut self, reading: Option<(Vec<WindowInfo>, String)>)
        ensures
            final(self)@ == WindowsView::configured(reading_view(reading)),
    {
        match reading {
            Some((windows, active_window)) => {
                self.windows = windows;
                self.active_window = active_window;
            },
            None => {
                self.windows = Vec::new();
                self.active_window = String::new();
                assert(self@.windows =~= Seq::empty());
            },
        }
    }

    /// Renders the windows, one fragment each.
    pub fn render(&self) -> (spans: Vec<Fragment>)
        ensures
            fragment_views(spans@) == self@.rendered(),
    {
        let mut spans: Vec<Fragment> = Vec::new();
        let mut i: usize = 0;
        while i < self.windows.len()
            invariant
                i <= self.windows.len(),
                spans.len() == i,
                forall|k: int|
                    0 <= k < i ==> (#[trigger] spans@[k])@ == self.windows@[k]@.rendered(
                        self.active_window@,
                    ),
            decreases self.windows.len() - i,
        {
            spans.push(self.windows[i].render(self.active_window.as_str()));
            i += 1;
        }
        assert(fragment_views(spans@) =~= self@.rendered());
        spans
    }

    /// Renders the windows from `(origin_x, origin_y)` and binds each
    /// fragment to the window it stands for.
    pub fn render_with_bounds(&self, origin_x: u16, origin_y: u16) -> (out: (Vec<Fragment>, Vec<ClickArea>))
        ensures
            fragment_views(out.0@) == self@.rendered(),
            click_area_views(out.1@) == self@.click_areas(origin_x, origin_y),
    {
        let spans = self.render();
        let mut areas: Vec<ClickArea> = Vec::new();
        let mut x: u16 = origin_x;
        let mut i: usize = 0;
        assert(fragment_views(spans@).len() == self.windows.len());
        while i < self.windows.len()
            invariant
                i <= self.windows.len(),
                spans.len() == self.windows.len(),
                fragment_views(spans@) == self@.rendered(),
                areas.len() == i,
                x == column_after(origin_x, total_width(self@.rendered().subrange(0, i as int))),
                forall|k: int|
                    0 <= k < i ==> (#[trigger] areas@[k])@ == self@.click_area(k, origin_x, origin_y),
            decreases self.windows.len() - i,
        {
            let ghost before = self@.rendered().subrange(0, i as int);
            let ghost after = self@.rendered().subrange(0, i + 1);
            proof {
                assert(after.drop_last() =~= before);
                assert(after.last() == self@.rendered()[i as int]);
                assert(fragment_views(spans@)[i as int] == spans@[i as int]@);
                lemma_column_after_twice(origin_x, total_width(before), after.last().width());
            }
            let next = spans[i].end_column(x);
            let width = spans[i].width();
            areas.push(
                ClickArea {
                    x,
                    y: origin_y,
                    width,
                    height: 1,
                    target: ClickTarget::Window(self.windows[i].address.clone()),
                },
            );
            assert(info_views(self.windows@)[i as int] == self.windows@[i as int]@);
            x = next;
            i += 1;
        }
        assert(click_area_views(areas@) =~= self@.click_areas(origin_x, origin_y));
        (spans, areas)
    }
}

impl Default for Windows {
    /// An empty window list.
    fn default() -> (list: Windows)
        ensures
            list@ == WindowsView::configured(None),
    {
        Windows::new(None)
    }
}

impl Clone for Windows {
    fn clone(&self) -> (copy: Windows)
        ensures
            copy@ == self@,
    {
        let mut windows: Vec<WindowInfo> = Vec::new();
        let mut i: usize = 0;
        while i < self.windows.len()
            invariant
                i <= self.windows.len(),
                windows@ == self.windows@.subrange(0, i as int),
            decreases self.windows.len() - i,
        {
            windows.push(self.windows[i].clone());
            i += 1;
            assert(windows@ =~= self.windows@.subrange(0, i as int));
        }
        assert(self.windows@.subrange(0, i as int) =~= self.windows@);
        Windows { windows, active_window: self.active_window.clone() }
    }
}

} // verus!
