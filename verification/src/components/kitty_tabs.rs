//! Tabs of the focused terminal: one icon per tab, and the title of the
//! active one.

use vstd::prelude::*;
use vstd::string::*;
use vstd::utf8::*;
use crate::components::ConfigurableComponent;
use crate::config::{read_text, Setting};
use crate::json::{as_text, as_unsigned, member, parse, json_content, parsed_json, JsonView};
use crate::style::{fragment_views, Color, Fragment, FragmentView};
use crate::text::{
    chars_of, contains, decimal_string, decimal_text, has_infix, has_number_line, has_prefix,
    lists_number, lowercase_of, starts_with, to_lowercase,
};

verus! {

/// The longest title, in bytes, that is shown whole.
pub open spec fn title_limit(is_active: bool) -> int {
    if is_active {
        16
    } else {
        12
    }
}

/// The last character boundary of `bytes` at or before `limit`.
pub open spec fn boundary_before(bytes: Seq<u8>, limit: int) -> int
    decreases limit,
{
    if limit <= 0 {
        0
    } else if is_char_boundary(bytes, limit) {
        limit
    } else {
        boundary_before(bytes, limit - 1)
    }
}

/// A title cut to fit: a title of at most `title_limit` bytes stays as it
/// is; a longer one keeps the whole characters of its first
/// `title_limit - 3` bytes and ends in three dots.
pub open spec fn truncated_title(title: Seq<char>, is_active: bool) -> Seq<char> {
    let bytes = encode_utf8(title);
    if bytes.len() <= title_limit(is_active) {
        title
    } else {
        decode_utf8(bytes.subrange(0, boundary_before(bytes, title_limit(is_active) - 3))) + "..."@
    }
}

/// Cuts a title to fit its tab.
pub fn truncate_title(title: &str, is_active: bool) -> (shown: String)
    ensures
        shown@ == truncated_title(title@, is_active),
{
    let max_len: usize = if is_active { 16 } else { 12 };
    let len: usize = title.as_bytes().len();
    if len <= max_len {
        return title.to_owned();
    }
    let ghost bytes = title.spec_bytes();
    let mut cut: usize = max_len - 3;
    while cut > 0 && !title.is_char_boundary(cut)
        invariant
            bytes == title.spec_bytes(),
            cut <= max_len - 3,
            boundary_before(bytes, max_len - 3) == boundary_before(bytes, cut as int),
        decreases cut,
    {
        cut -= 1;
    }
    proof {
        encode_utf8_valid_utf8(title@);
        is_char_boundary_start_end_of_seq(bytes);
    }
    assert(boundary_before(bytes, cut as int) == cut);
    assert(is_char_boundary(bytes, cut as int));
    let (head, _) = title.split_at(cut);
    proof {
        encode_utf8_decode_utf8(head@);
    }
    let mut shown = head.to_owned();
    shown.append("...");
    shown
}

/// The icon of a tab whose lower-cased title is `t`: the first rule that the
/// title meets decides, and a title that meets none gets the shell icon.
pub open spec fn tab_icon_for(t: Seq<char>) -> Seq<char> {
    if has_prefix(t, "nvim"@) || has_infix(t, "neovim"@) {
        ""@
    } else if has_prefix(t, "vim"@) {
        ""@
    } else if has_prefix(t, "emacs"@) {
        "󰍹"@
    } else if has_prefix(t, "nano"@) {
        ""@
    } else if has_prefix(t, "htop"@) || has_prefix(t, "btop"@) {
        "󰔚"@
    } else if has_prefix(t, "yazi"@) {
        "󰇥"@
    } else if has_prefix(t, "ranger"@) || has_prefix(t, "lf"@) {
        "󰉋"@
    } else if has_prefix(t, "git"@) {
        "󰊢"@
    } else if has_prefix(t, "man"@) {
        "󰍹"@
    } else if has_prefix(t, "ssh"@) {
        "󰣀"@
    } else if has_prefix(t, "cmus"@) || has_prefix(t, "ncmpcpp"@) {
        "󰓇"@
    } else if has_prefix(t, "docker"@) {
        "󰡨"@
    } else if has_prefix(t, "node"@) || has_prefix(t, "npm"@) {
        "󰎙"@
    } else if has_prefix(t, "python"@) || has_prefix(t, "python3"@) {
        "󰌠"@
    } else if has_prefix(t, "rustc"@) || has_infix(t, "cargo"@) {
        "󱘗"@
    } else if has_prefix(t, "go"@) {
        "󰟦"@
    } else if has_prefix(t, "java"@) {
        "󰬙"@
    } else if has_prefix(t, "fish"@) || has_prefix(t, "bash"@) || has_prefix(t, "zsh"@) {
        "󰆍"@
    } else if has_infix(t, "watch"@) || has_infix(t, "tail"@) {
        "󰈰"@
    } else if has_prefix(t, "wget"@) || has_prefix(t, "curl"@) {
        "󰈁"@
    } else if has_infix(t, "edit"@) || has_infix(t, "vi"@) {
        ""@
    } else if has_prefix(t, "opencode"@)
        || has_infix(t, "opencode"@)
        || has_prefix(t, "oc |"@) {
        "󰚩"@
    } else if has_prefix(t, "lazygit"@) || has_prefix(t, "gitui"@) {
        "󰊢"@
    } else if has_prefix(t, "bat"@) || has_prefix(t, "less"@) || has_prefix(t, "more"@) {
        "󰈚"@
    } else if has_prefix(t, "exa"@) || has_prefix(t, "lsd"@) || has_prefix(t, "tree"@) {
        "󰉋"@
    } else if has_prefix(t, "fd"@)
        || has_prefix(t, "find"@)
        || has_prefix(t, "rg"@)
        || has_prefix(t, "grep"@)
        || has_prefix(t, "ag"@) {
        "󰍉"@
    } else if has_prefix(t, "k9s"@) || has_prefix(t, "kubectl"@) {
        "󱃾"@
    } else if has_prefix(t, "terraform"@) || has_prefix(t, "tf"@) {
        "󱁢"@
    } else if has_prefix(t, "ansible"@) || has_prefix(t, "ansible-playbook"@) {
        "󰔚"@
    } else if has_prefix(t, "tmux"@) || has_prefix(t, "screen"@) {
        "󰆍"@
    } else if has_prefix(t, "weechat"@) || has_prefix(t, "irssi"@) {
        "󰒱"@
    } else if has_prefix(t, "neomutt"@) || has_prefix(t, "mutt"@) {
        "󰇰"@
    } else if has_prefix(t, "newsboat"@) || has_prefix(t, "nnn"@) {
        "󰎕"@
    } else if has_prefix(t, "ncdu"@) || has_prefix(t, "du"@) {
        "󰉋"@
    } else if has_prefix(t, "glow"@) || has_prefix(t, "mdcat"@) {
        "󰍹"@
    } else if has_prefix(t, "tig"@) || has_prefix(t, "lazydocker"@) {
        "󰊢"@
    } else if has_prefix(t, "fzf"@)
        || has_prefix(t, "peco"@)
        || has_prefix(t, "ripgrep-all"@)
        || has_prefix(t, "rga"@) {
        "󰍉"@
    } else if has_prefix(t, "jq"@) || has_prefix(t, "yq"@) {
        "󰉼"@
    } else if has_prefix(t, "bottom"@) || has_prefix(t, "glances"@) {
        "󰔚"@
    } else if has_prefix(t, "nmap"@) || has_prefix(t, "netstat"@) {
        "󰈁"@
    } else if has_prefix(t, "hugo"@) || has_prefix(t, "jekyll"@) {
        "󰀶"@
    } else if has_prefix(t, "pip"@) || has_prefix(t, "poetry"@) {
        "󰌠"@
    } else if has_prefix(t, "deno"@) || has_prefix(t, "bun"@) {
        "󰎙"@
    } else if has_prefix(t, "zig"@) || has_prefix(t, "nim"@) {
        "󱘗"@
    } else if has_prefix(t, "make"@) || has_prefix(t, "cmake"@) {
        "󰔧"@
    } else if has_prefix(t, "gdb"@) || has_prefix(t, "lldb"@) {
        "󰃤"@
    } else if has_prefix(t, "strace"@)
        || has_prefix(t, "ltrace"@)
        || has_prefix(t, "valgrind"@) {
        "󰔚"@
    } else if has_prefix(t, "wireshark"@) || has_prefix(t, "tshark"@) {
        "󰈁"@
    } else if has_prefix(t, "sqlite3"@)
        || has_prefix(t, "mysql"@)
        || has_prefix(t, "redis-cli"@)
        || has_prefix(t, "psql"@) {
        "󰆼"@
    } else if has_prefix(t, "gh"@) || has_prefix(t, "hub"@) {
        "󰊢"@
    } else if has_prefix(t, "alacritty"@) || has_prefix(t, "foot"@) {
        "󰆍"@
    } else if has_prefix(t, "nvim-qt"@) || has_prefix(t, "gvim"@) {
        ""@
    } else {
        "󰆍"@
    }
}

/// Looks up the icon for a title that is already in lower case.
pub fn tab_icon_of_lowercase(lower: &str) -> (icon: String)
    ensures
        icon@ == tab_icon_for(lower@),
{
    let t = chars_of(lower);
    if starts_with(&t, "nvim") || contains(&t, "neovim") {
        String::from_str("")
    } else if starts_with(&t, "vim") {
        String::from_str("")
    } else if starts_with(&t, "emacs") {
        String::from_str("󰍹")
    } else if starts_with(&t, "nano") {
        String::from_str("")
    } else if starts_with(&t, "htop") || starts_with(&t, "btop") {
        String::from_str("󰔚")
    } else if starts_with(&t, "yazi") {
        String::from_str("󰇥")
    } else if starts_with(&t, "ranger") || starts_with(&t, "lf") {
        String::from_str("󰉋")
    } else if starts_with(&t, "git") {
        String::from_str("󰊢")
    } else if starts_with(&t, "man") {
        String::from_str("󰍹")
    } else if starts_with(&t, "ssh") {
        String::from_str("󰣀")
    } else if starts_with(&t, "cmus") || starts_with(&t, "ncmpcpp") {
        String::from_str("󰓇")
    } else if starts_with(&t, "docker") {
        String::from_str("󰡨")
    } else if starts_with(&t, "node") || starts_with(&t, "npm") {
        String::from_str("󰎙")
    } else if starts_with(&t, "python") || starts_with(&t, "python3") {
        String::from_str("󰌠")
    } else if starts_with(&t, "rustc") || contains(&t, "cargo") {
        String::from_str("󱘗")
    } else if starts_with(&t, "go") {
        String::from_str("󰟦")
    } else if starts_with(&t, "java") {
        String::from_str("󰬙")
    } else if starts_with(&t, "fish") || starts_with(&t, "bash") || starts_with(&t, "zsh") {
        String::from_str("󰆍")
    } else if contains(&t, "watch") || contains(&t, "tail") {
        String::from_str("󰈰")
    } else if starts_with(&t, "wget") || starts_with(&t, "curl") {
        String::from_str("󰈁")
    } else if contains(&t, "edit") || contains(&t, "vi") {
        String::from_str("")
    } else if starts_with(&t, "opencode")
        || contains(&t, "opencode")
        || starts_with(&t, "oc |") {
        String::from_str("󰚩")
    } else if starts_with(&t, "lazygit") || starts_with(&t, "gitui") {
        String::from_str("󰊢")
    } else if starts_with(&t, "bat") || starts_with(&t, "less") || starts_with(&t, "more") {
        String::from_str("󰈚")
    } else if starts_with(&t, "exa") || starts_with(&t, "lsd") || starts_with(&t, "tree") {
        String::from_str("󰉋")
    } else if starts_with(&t, "fd")
        || starts_with(&t, "find")
        || starts_with(&t, "rg")
        || starts_with(&t, "grep")
        || starts_with(&t, "ag") {
        String::from_str("󰍉")
    } else if starts_with(&t, "k9s") || starts_with(&t, "kubectl") {
        String::from_str("󱃾")
    } else if starts_with(&t, "terraform") || starts_with(&t, "tf") {
        String::from_str("󱁢")
    } else if starts_with(&t, "ansible") || starts_with(&t, "ansible-playbook") {
        String::from_str("󰔚")
    } else if starts_with(&t, "tmux") || starts_with(&t, "screen") {
        String::from_str("󰆍")
    } else if starts_with(&t, "weechat") || starts_with(&t, "irssi") {
        String::from_str("󰒱")
    } else if starts_with(&t, "neomutt") || starts_with(&t, "mutt") {
        String::from_str("󰇰")
    } else if starts_with(&t, "newsboat") || starts_with(&t, "nnn") {
        String::from_str("󰎕")
    } else if starts_with(&t, "ncdu") || starts_with(&t, "du") {
        String::from_str("󰉋")
    } else if starts_with(&t, "glow") || starts_with(&t, "mdcat") {
        String::from_str("󰍹")
    } else if starts_with(&t, "tig") || starts_with(&t, "lazydocker") {
        String::from_str("󰊢")
    } else if starts_with(&t, "fzf")
        || starts_with(&t, "peco")
        || starts_with(&t, "ripgrep-all")
        || starts_with(&t, "rga") {
        String::from_str("󰍉")
    } else if starts_with(&t, "jq") || starts_with(&t, "yq") {
        String::from_str("󰉼")
    } else if starts_with(&t, "bottom") || starts_with(&t, "glances") {
        String::from_str("󰔚")
    } else if starts_with(&t, "nmap") || starts_with(&t, "netstat") {
        String::from_str("󰈁")
    } else if starts_with(&t, "hugo") || starts_with(&t, "jekyll") {
        String::from_str("󰀶")
    } else if starts_with(&t, "pip") || starts_with(&t, "poetry") {
        String::from_str("󰌠")
    } else if starts_with(&t, "deno") || starts_with(&t, "bun") {
        String::from_str("󰎙")
    } else if starts_with(&t, "zig") || starts_with(&t, "nim") {
        String::from_str("󱘗")
    } else if starts_with(&t, "make") || starts_with(&t, "cmake") {
        String::from_str("󰔧")
    } else if starts_with(&t, "gdb") || starts_with(&t, "lldb") {
        String::from_str("󰃤")
    } else if starts_with(&t, "strace")
        || starts_with(&t, "ltrace")
        || starts_with(&t, "valgrind") {
        String::from_str("󰔚")
    } else if starts_with(&t, "wireshark") || starts_with(&t, "tshark") {
        String::from_str("󰈁")
    } else if starts_with(&t, "sqlite3")
        || starts_with(&t, "mysql")
        || starts_with(&t, "redis-cli")
        || starts_with(&t, "psql") {
        String::from_str("󰆼")
    } else if starts_with(&t, "gh") || starts_with(&t, "hub") {
        String::from_str("󰊢")
    } else if starts_with(&t, "alacritty") || starts_with(&t, "foot") {
        String::from_str("󰆍")
    } else if starts_with(&t, "nvim-qt") || starts_with(&t, "gvim") {
        String::from_str("")
    } else {
        String::from_str("󰆍")
    }
}

/// The icon of a tab with this title.
pub fn get_tab_icon(title: &str) -> (icon: String)
    ensures
        icon@ == tab_icon_for(lowercase_of(title@)),
{
    let lower = to_lowercase(title);
    tab_icon_of_lowercase(lower.as_str())
}

/// The background and foreground of an active tab whose lower-cased title
/// is `t`: the first rule that the title meets decides, and a title that
/// meets none gets the terminal's grey.
pub open spec fn tab_color_for(t: Seq<char>) -> (Color, Color) {
    if has_prefix(t, "nvim"@) || has_infix(t, "neovim"@) {
        (Color::Rgb(0, 107, 84), Color::White)
    } else if has_prefix(t, "vim"@) {
        (Color::Rgb(19, 134, 71), Color::White)
    } else if has_prefix(t, "emacs"@) {
        (Color::Rgb(146, 35, 127), Color::White)
    } else if has_prefix(t, "htop"@) || has_prefix(t, "btop"@) {
        (Color::Rgb(255, 152, 0), Color::Black)
    } else if has_prefix(t, "yazi"@) {
        (Color::Rgb(255, 200, 87), Color::Black)
    } else if has_prefix(t, "ranger"@) || has_prefix(t, "lf"@) {
        (Color::Rgb(41, 128, 185), Color::White)
    } else if has_prefix(t, "git"@) {
        (Color::Rgb(240, 80, 50), Color::White)
    } else if has_prefix(t, "ssh"@) {
        (Color::Rgb(0, 100, 200), Color::White)
    } else if has_prefix(t, "cmus"@) || has_prefix(t, "ncmpcpp"@) {
        (Color::Rgb(29, 185, 84), Color::White)
    } else if has_prefix(t, "docker"@) {
        (Color::Rgb(41, 128, 185), Color::White)
    } else if has_prefix(t, "node"@) || has_prefix(t, "npm"@) {
        (Color::Rgb(102, 77, 255), Color::White)
    } else if has_prefix(t, "python"@) || has_prefix(t, "python3"@) {
        (Color::Rgb(53, 114, 165), Color::White)
    } else if has_prefix(t, "rustc"@) || has_infix(t, "cargo"@) {
        (Color::Rgb(222, 76, 65), Color::White)
    } else if has_prefix(t, "go"@) {
        (Color::Rgb(0, 173, 216), Color::Black)
    } else if has_prefix(t, "java"@) {
        (Color::Rgb(255, 87, 34), Color::White)
    } else if has_prefix(t, "k9s"@) || has_prefix(t, "kubectl"@) {
        (Color::Rgb(61, 90, 254), Color::White)
    } else if has_prefix(t, "terraform"@) || has_prefix(t, "tf"@) {
        (Color::Rgb(94, 103, 110), Color::White)
    } else if has_prefix(t, "lazygit"@) || has_prefix(t, "gitui"@) {
        (Color::Rgb(240, 80, 50), Color::White)
    } else if has_prefix(t, "tmux"@) || has_prefix(t, "screen"@) {
        (Color::Rgb(46, 52, 64), Color::White)
    } else if has_prefix(t, "weechat"@) || has_prefix(t, "irssi"@) {
        (Color::Rgb(254, 0, 84), Color::White)
    } else if has_prefix(t, "neomutt"@) || has_prefix(t, "mutt"@) {
        (Color::Rgb(0, 112, 193), Color::White)
    } else if has_prefix(t, "newsboat"@) || has_prefix(t, "nnn"@) {
        (Color::Rgb(255, 193, 7), Color::Black)
    } else if has_prefix(t, "glow"@) || has_prefix(t, "mdcat"@) {
        (Color::Rgb(33, 150, 243), Color::White)
    } else if has_prefix(t, "tig"@) || has_prefix(t, "lazydocker"@) {
        (Color::Rgb(240, 80, 50), Color::White)
    } else if has_prefix(t, "jq"@) || has_prefix(t, "yq"@) {
        (Color::Rgb(0, 150, 136), Color::White)
    } else if has_prefix(t, "sqlite3"@)
        || has_prefix(t, "mysql"@)
        || has_prefix(t, "redis-cli"@)
        || has_prefix(t, "psql"@) {
        (Color::Rgb(40, 167, 69), Color::White)
    } else if has_prefix(t, "gh"@) || has_prefix(t, "hub"@) {
        (Color::Rgb(29, 185, 84), Color::White)
    } else if has_prefix(t, "opencode"@)
        || has_infix(t, "opencode"@)
        || has_prefix(t, "oc |"@) {
        (Color::Rgb(88, 101, 242), Color::White)
    } else if has_infix(t, "watch"@) || has_infix(t, "tail"@) {
        (Color::Rgb(156, 39, 176), Color::White)
    } else if has_prefix(t, "wget"@) || has_prefix(t, "curl"@) {
        (Color::Rgb(52, 152, 219), Color::White)
    } else if has_prefix(t, "make"@) || has_prefix(t, "cmake"@) {
        (Color::Rgb(230, 126, 34), Color::White)
    } else if has_prefix(t, "gdb"@) || has_prefix(t, "lldb"@) {
        (Color::Rgb(231, 76, 60), Color::White)
    } else if has_prefix(t, "hugo"@) || has_prefix(t, "jekyll"@) {
        (Color::Rgb(155, 89, 182), Color::White)
    } else if has_prefix(t, "pip"@) || has_prefix(t, "poetry"@) {
        (Color::Rgb(53, 114, 165), Color::White)
    } else if has_prefix(t, "deno"@) || has_prefix(t, "bun"@) {
        (Color::Rgb(46, 125, 50), Color::White)
    } else if has_prefix(t, "zig"@) || has_prefix(t, "nim"@) {
        (Color::Rgb(222, 76, 65), Color::White)
    } else {
        (Color::Rgb(103, 117, 140), Color::White)
    }
}

/// Looks up the colours for a title that is already in lower case.
pub fn tab_color_of_lowercase(lower: &str) -> (colors: (Color, Color))
    ensures
        colors == tab_color_for(lower@),
{
    let t = chars_of(lower);
    if starts_with(&t, "nvim") || contains(&t, "neovim") {
        (Color::Rgb(0, 107, 84), Color::White)
    } else if starts_with(&t, "vim") {
        (Color::Rgb(19, 134, 71), Color::White)
    } else if starts_with(&t, "emacs") {
        (Color::Rgb(146, 35, 127), Color::White)
    } else if starts_with(&t, "htop") || starts_with(&t, "btop") {
        (Color::Rgb(255, 152, 0), Color::Black)
    } else if starts_with(&t, "yazi") {
        (Color::Rgb(255, 200, 87), Color::Black)
    } else if starts_with(&t, "ranger") || starts_with(&t, "lf") {
        (Color::Rgb(41, 128, 185), Color::White)
    } else if starts_with(&t, "git") {
        (Color::Rgb(240, 80, 50), Color::White)
    } else if starts_with(&t, "ssh") {
        (Color::Rgb(0, 100, 200), Color::White)
    } else if starts_with(&t, "cmus") || starts_with(&t, "ncmpcpp") {
        (Color::Rgb(29, 185, 84), Color::White)
    } else if starts_with(&t, "docker") {
        (Color::Rgb(41, 128, 185), Color::White)
    } else if starts_with(&t, "node") || starts_with(&t, "npm") {
        (Color::Rgb(102, 77, 255), Color::White)
    } else if starts_with(&t, "python") || starts_with(&t, "python3") {
        (Color::Rgb(53, 114, 165), Color::White)
    } else if starts_with(&t, "rustc") || contains(&t, "cargo") {
        (Color::Rgb(222, 76, 65), Color::White)
    } else if starts_with(&t, "go") {
        (Color::Rgb(0, 173, 216), Color::Black)
    } else if starts_with(&t, "java") {
        (Color::Rgb(255, 87, 34), Color::White)
    } else if starts_with(&t, "k9s") || starts_with(&t, "kubectl") {
        (Color::Rgb(61, 90, 254), Color::White)
    } else if starts_with(&t, "terraform") || starts_with(&t, "tf") {
        (Color::Rgb(94, 103, 110), Color::White)
    } else if starts_with(&t, "lazygit") || starts_with(&t, "gitui") {
        (Color::Rgb(240, 80, 50), Color::White)
    } else if starts_with(&t, "tmux") || starts_with(&t, "screen") {
        (Color::Rgb(46, 52, 64), Color::White)
    } else if starts_with(&t, "weechat") || starts_with(&t, "irssi") {
        (Color::Rgb(254, 0, 84), Color::White)
    } else if starts_with(&t, "neomutt") || starts_with(&t, "mutt") {
        (Color::Rgb(0, 112, 193), Color::White)
    } else if starts_with(&t, "newsboat") || starts_with(&t, "nnn") {
        (Color::Rgb(255, 193, 7), Color::Black)
    } else if starts_with(&t, "glow") || starts_with(&t, "mdcat") {
        (Color::Rgb(33, 150, 243), Color::White)
    } else if starts_with(&t, "tig") || starts_with(&t, "lazydocker") {
        (Color::Rgb(240, 80, 50), Color::White)
    } else if starts_with(&t, "jq") || starts_with(&t, "yq") {
        (Color::Rgb(0, 150, 136), Color::White)
    } else if starts_with(&t, "sqlite3")
        || starts_with(&t, "mysql")
        || starts_with(&t, "redis-cli")
        || starts_with(&t, "psql") {
        (Color::Rgb(40, 167, 69), Color::White)
    } else if starts_with(&t, "gh") || starts_with(&t, "hub") {
        (Color::Rgb(29, 185, 84), Color::White)
    } else if starts_with(&t, "opencode")
        || contains(&t, "opencode")
        || starts_with(&t, "oc |") {
        (Color::Rgb(88, 101, 242), Color::White)
    } else if contains(&t, "watch") || contains(&t, "tail") {
        (Color::Rgb(156, 39, 176), Color::White)
    } else if starts_with(&t, "wget") || starts_with(&t, "curl") {
        (Color::Rgb(52, 152, 219), Color::White)
    } else if starts_with(&t, "make") || starts_with(&t, "cmake") {
        (Color::Rgb(230, 126, 34), Color::White)
    } else if starts_with(&t, "gdb") || starts_with(&t, "lldb") {
        (Color::Rgb(231, 76, 60), Color::White)
    } else if starts_with(&t, "hugo") || starts_with(&t, "jekyll") {
        (Color::Rgb(155, 89, 182), Color::White)
    } else if starts_with(&t, "pip") || starts_with(&t, "poetry") {
        (Color::Rgb(53, 114, 165), Color::White)
    } else if starts_with(&t, "deno") || starts_with(&t, "bun") {
        (Color::Rgb(46, 125, 50), Color::White)
    } else if starts_with(&t, "zig") || starts_with(&t, "nim") {
        (Color::Rgb(222, 76, 65), Color::White)
    } else {
        (Color::Rgb(103, 117, 140), Color::White)
    }
}

/// The background and foreground of an active tab with this title.
pub fn get_tab_color(title: &str) -> (colors: (Color, Color))
    ensures
        colors == tab_color_for(lowercase_of(title@)),
{
    let lower = to_lowercase(title);
    tab_color_of_lowercase(lower.as_str())
}

/// One tab as the terminal reports it.
#[derive(Debug)]
pub struct KittyTab {
    pub title: String,
    pub is_active: bool,
}

/// One window of the terminal, with its tabs, as the terminal reports it.
#[derive(Debug)]
pub struct KittyWindow {
    pub is_active: bool,
    pub is_focused: bool,
    pub last_focused: bool,
    pub tabs: Vec<KittyTab>,
}

/// A tab as the bar shows it.
#[derive(Debug)]
pub struct TabInfo {
    pub title: String,
    pub is_active: bool,
}

/// The tabs of the focused terminal.
#[derive(Debug)]
pub struct KittyTabs {
    pub tabs: Vec<TabInfo>,
    pub kitty_pid: Option<u32>,
    pub socket_path: Option<String>,
}

/// A tab: its title and whether it is the active one.
pub struct TabView {
    pub title: Seq<char>,
    pub is_active: bool,
}

/// A reported window.
pub struct KittyWindowView {
    pub is_active: bool,
    pub is_focused: bool,
    pub last_focused: bool,
    pub tabs: Seq<TabView>,
}

/// The state of the tab list.
pub struct KittyTabsView {
    pub tabs: Seq<TabView>,
    pub kitty_pid: Option<u32>,
    pub socket_path: Option<Seq<char>>,
}

impl View for KittyTab {
    type V = TabView;

    open spec fn view(&self) -> TabView {
        TabView { title: self.title@, is_active: self.is_active }
    }
}

impl View for TabInfo {
    type V = TabView;

    open spec fn view(&self) -> TabView {
        TabView { title: self.title@, is_active: self.is_active }
    }
}

impl View for KittyWindow {
    type V = KittyWindowView;

    open spec fn view(&self) -> KittyWindowView {
        KittyWindowView {
            is_active: self.is_active,
            is_focused: self.is_focused,
            last_focused: self.last_focused,
            tabs: self.tabs@.map_values(|t: KittyTab| t@),
        }
    }
}

/// The views of a run of tabs.
pub open spec fn tab_views(tabs: Seq<TabInfo>) -> Seq<TabView> {
    tabs.map_values(|t: TabInfo| t@)
}

/// The views of a run of reported windows.
pub open spec fn window_views(windows: Seq<KittyWindow>) -> Seq<KittyWindowView> {
    windows.map_values(|w: KittyWindow| w@)
}

/// The view of an optional text.
pub open spec fn text_view(text: Option<String>) -> Option<Seq<char>> {
    match text {
        Some(t) => Some(t@),
        None => None,
    }
}

/// The views of an optional run of tabs.
pub open spec fn optional_tab_views(tabs: Option<Vec<TabInfo>>) -> Option<Seq<TabView>> {
    match tabs {
        Some(t) => Some(tab_views(t@)),
        None => None,
    }
}

impl View for KittyTabs {
    type V = KittyTabsView;

    open spec fn view(&self) -> KittyTabsView {
        KittyTabsView {
            tabs: tab_views(self.tabs@),
            kitty_pid: self.kitty_pid,
            socket_path: text_view(self.socket_path),
        }
    }
}

impl TabInfo {
    /// A tab with this title.
    pub fn new(title: String, is_active: bool) -> (tab: TabInfo)
        ensures
            tab@ == (TabView { title: title@, is_active }),
    {
        TabInfo { title, is_active }
    }
}

impl Clone for TabInfo {
    fn clone(&self) -> (copy: TabInfo)
        ensures
            copy == *self,
    {
        TabInfo { title: self.title.clone(), is_active: self.is_active }
    }
}

/// The process that the description `window` of the focused window names,
/// where that window belongs to the terminal: its class is `kitty` and it
/// has a process number, of which the low 32 bits count.
pub open spec fn kitty_candidate(window: JsonView) -> Option<u32> {
    match (window.member("class"@), window.member("pid"@)) {
        (Some(class), Some(pid)) => match (class.text(), pid.unsigned()) {
            (Some(name), Some(number)) => if name == "kitty"@ {
                Some((number % 0x1_0000_0000) as u32)
            } else {
                None
            },
            _ => None,
        },
        _ => None,
    }
}

/// Reads the terminal's process number from the description of the focused
/// window.
pub fn focused_kitty_candidate(window: &serde_json::Value) -> (candidate: Option<u32>)
    ensures
        candidate == kitty_candidate(json_content(*window)),
{
    let class = match member(window, "class") {
        Some(c) => as_text(c),
        None => None,
    };
    let pid = match member(window, "pid") {
        Some(p) => as_unsigned(p),
        None => None,
    };
    match (class, pid) {
        (Some(name), Some(number)) => {
            let name_chars = chars_of(name);
            if crate::text::equals(&name_chars, "kitty") {
                Some((number % 0x1_0000_0000) as u32)
            } else {
                None
            }
        },
        _ => None,
    }
}

/// Reads the terminal's process number from the raw description of the
/// focused window. A description that is no JSON document names none.
pub fn focused_kitty_candidate_in(active_window: &str) -> (candidate: Option<u32>)
    ensures
        candidate == match parsed_json(active_window@) {
            Some(window) => kitty_candidate(window),
            None => None,
        },
{
    match parse(active_window) {
        Some(window) => focused_kitty_candidate(&window),
        None => None,
    }
}

/// Whether the process `pid` is among the single-instance terminals that
/// the process search lists, one number per line.
pub fn is_single_instance_kitty(search_output: &str, pid: u32) -> (listed: bool)
    ensures
        listed == lists_number(search_output@, pid),
{
    let text = chars_of(search_output);
    has_number_line(&text, pid)
}

/// The focused single-instance terminal: the candidate of the focused
/// window, where the process search was run and lists it.
pub open spec fn focused_kitty_pid(window: JsonView, search_output: Option<Seq<char>>) -> Option<u32> {
    match (kitty_candidate(window), search_output) {
        (Some(pid), Some(listing)) => if lists_number(listing, pid) {
            Some(pid)
        } else {
            None
        },
        _ => None,
    }
}

/// Decides from the parsed description of the focused window, and from the
/// output of the process search if it ran, which terminal is focused.
pub fn focused_kitty_pid_of(window: &serde_json::Value, search_output: Option<&str>) -> (pid: Option<u32>)
    ensures
        pid == focused_kitty_pid(
            json_content(*window),
            match search_output {
                Some(o) => Some(o@),
                None => None,
            },
        ),
{
    match (focused_kitty_candidate(window), search_output) {
        (Some(pid), Some(listing)) => if is_single_instance_kitty(listing, pid) {
            Some(pid)
        } else {
            None
        },
        _ => None,
    }
}

/// Decides which terminal is focused from the raw description of the focused
/// window, if the window manager gave one, and from the output of the
/// process search, if it ran. Without a description that is a JSON document
/// there is none.
pub fn get_focused_kitty_pid(active_window: Option<&str>, search_output: Option<&str>) -> (pid: Option<u32>)
    ensures
        pid == match active_window {
            Some(description) => match parsed_json(description@) {
                Some(window) => focused_kitty_pid(
                    window,
                    match search_output {
                        Some(o) => Some(o@),
                        None => None,
                    },
                ),
                None => None,
            },
            None => None,
        },
{
    match active_window {
        Some(description) => match parse(description) {
            Some(window) => focused_kitty_pid_of(&window, search_output),
            None => None,
        },
        None => None,
    }
}

/// The address at which the terminal `pid` answers: the configured socket,
/// or the socket that the terminal opens by default for its process.
pub open spec fn socket_address(pid: u32, socket_path: Option<Seq<char>>) -> Seq<char> {
    match socket_path {
        Some(path) => "unix:"@ + path,
        None => "unix:"@ + ("/tmp/kitty-"@ + decimal_text(pid as nat)),
    }
}

/// Builds the address at which the terminal `pid` answers.
pub fn kitty_socket_address(pid: u32, socket_path: Option<&str>) -> (address: String)
    ensures
        address@ == socket_address(
            pid,
            match socket_path {
                Some(p) => Some(p@),
                None => None,
            },
        ),
{
    let mut address = String::from_str("unix:");
    match socket_path {
        Some(path) => {
            address.append(path);
        },
        None => {
            let mut path = String::from_str("/tmp/kitty-");
            path.append(decimal_string(pid as u64).as_str());
            address.append(path.as_str());
        },
    }
    address
}

impl KittyWindowView {
    /// Whether the window is the one whose tabs are shown.
    pub open spec fn is_current(self) -> bool {
        self.is_active || self.is_focused || self.last_focused
    }

    /// The tabs of the window as the bar shows them: a tab without a title
    /// is named after its position, counted from 1.
    pub open spec fn shown_tabs(self) -> Seq<TabView> {
        Seq::new(
            self.tabs.len(),
            |i: int|
                TabView {
                    title: if self.tabs[i].title.len() == 0 {
                        "Tab "@ + decimal_text((i + 1) as nat)
                    } else {
                        self.tabs[i].title
                    },
                    is_active: self.tabs[i].is_active,
                },
        )
    }
}

/// The position of the first current window among `windows`, or their
/// number where none is current.
pub open spec fn first_current(windows: Seq<KittyWindowView>) -> int
    decreases windows.len(),
{
    if windows.len() == 0 {
        0
    } else if windows[0].is_current() {
        0
    } else {
        1 + first_current(windows.drop_first())
    }
}

/// The tabs to show for the reported `windows`: those of the first current
/// window, and none where no window is current.
pub open spec fn current_tabs(windows: Seq<KittyWindowView>) -> Option<Seq<TabView>> {
    if first_current(windows) < windows.len() {
        Some(windows[first_current(windows)].shown_tabs())
    } else {
        None
    }
}

/// The first current window lies within the list or at its end, and no
/// window before it is current.
pub proof fn lemma_first_current(windows: Seq<KittyWindowView>)
    ensures
        0 <= first_current(windows) <= windows.len(),
        first_current(windows) < windows.len() ==> windows[first_current(windows)].is_current(),
        forall|k: int| 0 <= k < first_current(windows) ==> !(#[trigger] windows[k]).is_current(),
    decreases windows.len(),
{
    if windows.len() > 0 && !windows[0].is_current() {
        let rest = windows.drop_first();
        lemma_first_current(rest);
        assert forall|k: int| 0 <= k < first_current(windows) implies !(#[trigger] windows[
            k
        ]).is_current() by {
            if k > 0 {
                assert(windows[k] == rest[k - 1]);
            }
        }
        if first_current(windows) < windows.len() {
            assert(windows[first_current(windows)] == rest[first_current(rest)]);
        }
    }
}

/// A position is the first current window if it is current and nothing
/// before it is.
pub proof fn lemma_first_current_is(windows: Seq<KittyWindowView>, at: int)
    requires
        0 <= at <= windows.len(),
        at < windows.len() ==> windows[at].is_current(),
        forall|k: int| 0 <= k < at ==> !(#[trigger] windows[k]).is_current(),
    ensures
        first_current(windows) == at,
{
    lemma_first_current(windows);
    let f = first_current(windows);
    if f < at {
        assert(windows[f].is_current());
    } else if f > at {
        assert(!windows[at].is_current());
    }
}

fn shown_tabs_of(window: &KittyWindow) -> (tabs: Vec<TabInfo>)
    ensures
        tab_views(tabs@) == window@.shown_tabs(),
{
    let mut tabs: Vec<TabInfo> = Vec::new();
    let mut index: usize = 0;
    while index < window.tabs.len()
        invariant
            index <= window.tabs.len(),
            tabs.len() == index,
            forall|k: int| 0 <= k < index ==> (#[trigger] tabs@[k])@ == window@.shown_tabs()[k],
        decreases window.tabs.len() - index,
    {
        let tab = &window.tabs[index];
        assert(window@.tabs[index as int] == tab@);
        let title = if tab.title.as_str().is_empty() {
            let mut name = String::from_str("Tab ");
            name.append(decimal_string(index as u64 + 1).as_str());
            name
        } else {
            tab.title.clone()
        };
        tabs.push(TabInfo { title, is_active: tab.is_active });
        index += 1;
    }
    assert(tab_views(tabs@) =~= window@.shown_tabs());
    tabs
}

/// Picks the tabs to show from the windows that the terminal reported.
pub fn get_kitty_tabs_for_pid(windows: &Vec<KittyWindow>) -> (tabs: Option<Vec<TabInfo>>)
    ensures
        optional_tab_views(tabs) == current_tabs(window_views(windows@)),
{
    let mut i: usize = 0;
    while i < windows.len()
        invariant
            i <= windows.len(),
            forall|k: int| 0 <= k < i ==> !(#[trigger] window_views(windows@)[k]).is_current(),
        decreases windows.len() - i,
    {
        let window = &windows[i];
        assert(window_views(windows@)[i as int] == window@);
        if window.is_active || window.is_focused || window.last_focused {
            proof {
                lemma_first_current_is(window_views(windows@), i as int);
            }
            return Some(shown_tabs_of(window));
        }
        i += 1;
    }
    proof {
        lemma_first_current_is(window_views(windows@), windows.len() as int);
    }
    None
}

/// The tabs to show when `pid` is the focused terminal, if any, and
/// `windows` is what it reported, if it answered.
pub open spec fn kitty_tabs_for(
    pid: Option<u32>,
    windows: Option<Seq<KittyWindowView>>,
) -> Option<Seq<TabView>> {
    match (pid, windows) {
        (Some(_), Some(reported)) => current_tabs(reported),
        _ => None,
    }
}

/// Picks the tabs to show: none without a focused terminal or without its
/// report.
pub fn get_kitty_tabs(pid: Option<u32>, windows: Option<&Vec<KittyWindow>>) -> (tabs: Option<Vec<TabInfo>>)
    ensures
        optional_tab_views(tabs) == kitty_tabs_for(
            pid,
            match windows {
                Some(w) => Some(window_views(w@)),
                None => None,
            },
        ),
{
    match (pid, windows) {
        (Some(_), Some(reported)) => get_kitty_tabs_for_pid(reported),
        _ => None,
    }
}

impl TabView {
    /// How a tab renders. The active tab shows its icon and its title, cut
    /// to fit, in the colours of its program, or black on white without
    /// colours. Any other tab shows its icon alone, in grey, or in white
    /// without colours.
    pub open spec fn rendered(self, colorize: bool) -> FragmentView {
        let lower = lowercase_of(self.title);
        if self.is_active {
            let span = FragmentView::raw(
                " "@ + tab_icon_for(lower) + " "@ + truncated_title(self.title, true) + " "@,
            );
            if colorize {
                span.bg(tab_color_for(lower).0).fg(tab_color_for(lower).1)
            } else {
                span.bg(Color::White).fg(Color::Black)
            }
        } else {
            let span = FragmentView::raw(" "@ + tab_icon_for(lower) + " "@);
            if colorize {
                span.fg(Color::Rgb(103, 117, 140))
            } else {
                span.fg(Color::White)
            }
        }
    }
}

impl KittyTabsView {
    /// A tab list for the terminal at `socket_path`, filled with a first
    /// reading.
    pub open spec fn configured(
        socket_path: Option<Seq<char>>,
        kitty_pid: Option<u32>,
        tabs: Option<Seq<TabView>>,
    ) -> KittyTabsView {
        KittyTabsView {
            tabs: match tabs {
                Some(t) => t,
                None => Seq::empty(),
            },
            kitty_pid,
            socket_path,
        }
    }

    /// The tab list after a reading: it shows the tabs that were read for
    /// the focused terminal, and none where no terminal is focused or the
    /// reading failed.
    pub open spec fn updated(self, kitty_pid: Option<u32>, tabs: Option<Seq<TabView>>) -> KittyTabsView {
        KittyTabsView {
            tabs: match (kitty_pid, tabs) {
                (Some(_), Some(t)) => t,
                _ => Seq::empty(),
            },
            kitty_pid,
            ..self
        }
    }

    /// What the tab list renders: one fragment per tab, in order.
    pub open spec fn rendered(self, colorize: bool) -> Seq<FragmentView> {
        self.tabs.map_values(|t: TabView| t.rendered(colorize))
    }
}

impl TabInfo {
    /// Renders the tab as one fragment.
    pub fn render(&self, colorize: bool) -> (span: Fragment)
        ensures
            span@ == self@.rendered(colorize),
    {
        let icon = get_tab_icon(self.title.as_str());
        let mut content = String::from_str(" ");
        content.append(icon.as_str());
        content.append(" ");
        if self.is_active {
            let title = truncate_title(self.title.as_str(), true);
            content.append(title.as_str());
            content.append(" ");
            if colorize {
                let (bg_color, fg_color) = get_tab_color(self.title.as_str());
                Fragment::raw(content).bg(bg_color).fg(fg_color)
            } else {
                Fragment::raw(content).bg(Color::White).fg(Color::Black)
            }
        } else {
            if colorize {
                Fragment::raw(content).fg(Color::Rgb(103, 117, 140))
            } else {
                Fragment::raw(content).fg(Color::White)
            }
        }
    }
}

impl KittyTabs {
    /// A tab list for the terminal at its default socket.
    pub fn new(kitty_pid: Option<u32>, tabs: Option<Vec<TabInfo>>) -> (list: KittyTabs)
        ensures
            list@ == KittyTabsView::configured(None, kitty_pid, optional_tab_views(tabs)),
    {
        KittyTabs::with_config(None, kitty_pid, tabs)
    }

    /// A tab list for the terminal at `socket_path`. `kitty_pid` and `tabs`
    /// are the first reading: the focused terminal and its tabs, where
    /// there are any.
    pub fn with_config(
        socket_path: Option<String>,
        kitty_pid: Option<u32>,
        tabs: Option<Vec<TabInfo>>,
    ) -> (list: KittyTabs)
        ensures
            list@ == KittyTabsView::configured(
                text_view(socket_path),
                kitty_pid,
                optional_tab_views(tabs),
            ),
    {
        let ghost given = optional_tab_views(tabs);
        let ghost path = text_view(socket_path);
        let shown = match tabs {
            Some(t) => t,
            None => Vec::new(),
        };
        let list = KittyTabs { tabs: shown, kitty_pid, socket_path };
        assert(list@.tabs =~= KittyTabsView::configured(path, kitty_pid, given).tabs);
        list
    }

    /// Takes a new reading: the focused terminal and its tabs, where there
    /// are any.
    pub fn update(&mut self, kitty_pid: Option<u32>, tabs: Option<Vec<TabInfo>>)
        ensures
            final(self)@ == old(self)@.updated(kitty_pid, optional_tab_views(tabs)),
    {
        let ghost given = optional_tab_views(tabs);
        self.kitty_pid = kitty_pid;
        self.tabs = match (kitty_pid, tabs) {
            (Some(_), Some(t)) => t,
            _ => Vec::new(),
        };
        assert(self@.tabs =~= old(self)@.updated(kitty_pid, given).tabs);
    }

    /// Renders the tabs, one fragment each.
    pub fn render_as_spans(&self, colorize: bool) -> (spans: Vec<Fragment>)
        ensures
            fragment_views(spans@) == self@.rendered(colorize),
    {
        let mut spans: Vec<Fragment> = Vec::new();
        let mut i: usize = 0;
        while i < self.tabs.len()
            invariant
                i <= self.tabs.len(),
                spans.len() == i,
                forall|k: int| 0 <= k < i ==> (#[trigger] spans@[k])@ == self.tabs@[k]@.rendered(colorize),
            decreases self.tabs.len() - i,
        {
            spans.push(self.tabs[i].render(colorize));
            i += 1;
        }
        assert(fragment_views(spans@) =~= self@.rendered(colorize));
        spans
    }
}

impl Default for KittyTabs {
    /// A tab list without tabs, terminal and socket.
    fn default() -> (list: KittyTabs)
        ensures
            list@ == KittyTabsView::configured(None, None, None),
    {
        KittyTabs::with_config(None, None, None)
    }
}

impl Clone for KittyTabs {
    fn clone(&self) -> (copy: KittyTabs)
        ensures
            copy@ == self@,
    {
        let mut tabs: Vec<TabInfo> = Vec::new();
        let mut i: usize = 0;
        while i < self.tabs.len()
            invariant
                i <= self.tabs.len(),
                tabs@ == self.tabs@.subrange(0, i as int),
            decreases self.tabs.len() - i,
        {
            tabs.push(self.tabs[i].clone());
            i += 1;
            assert(tabs@ =~= self.tabs@.subrange(0, i as int));
        }
        assert(self.tabs@.subrange(0, i as int) =~= self.tabs@);
        let socket_path = match &self.socket_path {
            Some(p) => Some(p.clone()),
            None => None,
        };
        KittyTabs { tabs, kitty_pid: self.kitty_pid, socket_path }
    }
}

impl ConfigurableComponent for KittyTabs {
    /// A tab list reads `socket_path`, a text that may be missing.
    open spec fn from_settings(settings: JsonView, now: u64) -> Option<KittyTabsView> {
        match settings.text_setting("socket_path"@) {
            Setting::Absent => Some(KittyTabsView::configured(None, None, None)),
            Setting::Given(path) => Some(KittyTabsView::configured(Some(path), None, None)),
            Setting::Mismatch => None,
        }
    }

    fn from_config(settings: &serde_json::Value, now: u64) -> (built: Option<KittyTabs>) {
        match read_text(settings, "socket_path") {
            Setting::Absent => Some(KittyTabs::with_config(None, None, None)),
            Setting::Given(path) => Some(KittyTabs::with_config(Some(path), None, None)),
            Setting::Mismatch => None,
        }
    }
}

} // verus!
