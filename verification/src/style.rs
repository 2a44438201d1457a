//! Styled text: the colours a component may ask for and the fragments it
//! renders to.

use vstd::prelude::*;
use vstd::string::*;

verus! {

/// A terminal colour.
#[derive(Debug, Clone, Copy, PartialEq, Eq, Structural)]
pub enum Color {
    Reset,
    Black,
    Red,
    Green,
    Yellow,
    Blue,
    Magenta,
    Cyan,
    Gray,
    DarkGray,
    LightRed,
    LightGreen,
    LightYellow,
    LightBlue,
    LightMagenta,
    LightCyan,
    White,
    Rgb(u8, u8, u8),
    Indexed(u8),
}

/// A run of text with one style.
#[derive(Debug)]
pub struct Fragment {
    pub content: String,
    pub fg: Option<Color>,
    pub bg: Option<Color>,
}

/// What a fragment shows: its characters and its colours.
pub struct FragmentView {
    pub content: Seq<char>,
    pub fg: Option<Color>,
    pub bg: Option<Color>,
}

impl View for Fragment {
    type V = FragmentView;

    open spec fn view(&self) -> FragmentView {
        FragmentView { content: self.content@, fg: self.fg, bg: self.bg }
    }
}

impl FragmentView {
    /// An unstyled fragment.
    pub open spec fn raw(content: Seq<char>) -> FragmentView {
        FragmentView { content, fg: None, bg: None }
    }

    /// The same fragment with this foreground colour.
    pub open spec fn fg(self, color: Color) -> FragmentView {
        FragmentView { fg: Some(color), ..self }
    }

    /// The same fragment with this background colour.
    pub open spec fn bg(self, color: Color) -> FragmentView {
        FragmentView { bg: Some(color), ..self }
    }

    /// The number of terminal cells that the content takes.
    pub open spec fn width(self) -> nat {
        display_width(self.content)
    }
}

/// The number of terminal cells that a text takes when it is drawn: a wide
/// character takes two, a combining mark none.
pub uninterp spec fn display_width(content: Seq<char>) -> nat;

/// Calls `Span::width` of `ratatui` on an unstyled span of `content`.
/// Trusted: the result is the width of the text in terminal cells, which
/// depends on the text alone.
#[verifier::external_body]
fn cell_width(content: &str) -> (cells: usize)
    ensures
        cells == display_width(content@),
{
    ratatui::text::Span::raw(content).width()
}

/// The number of cells that `fragments` take together.
pub open spec fn total_width(fragments: Seq<FragmentView>) -> nat
    decreases fragments.len(),
{
    if fragments.len() == 0 {
        0
    } else {
        total_width(fragments.drop_last()) + fragments.last().width()
    }
}

/// The column reached from `origin` after `cells` cells, on a screen whose
/// columns are counted in 16 bits.
pub open spec fn column_after(origin: u16, cells: nat) -> u16 {
    ((origin + cells) % 0x1_0000) as u16
}

/// Two runs of fragments take together the cells of the one and of the
/// other.
pub proof fn lemma_total_width_append(first: Seq<FragmentView>, second: Seq<FragmentView>)
    ensures
        total_width(first + second) == total_width(first) + total_width(second),
    decreases second.len(),
{
    if second.len() == 0 {
        assert(first + second =~= first);
    } else {
        lemma_total_width_append(first, second.drop_last());
        assert((first + second).drop_last() =~= first + second.drop_last());
        assert((first + second).last() == second.last());
    }
}

/// Going on from a column that was reached leads where the whole way
/// leads.
pub proof fn lemma_column_after_twice(origin: u16, first: nat, second: nat)
    ensures
        column_after(column_after(origin, first), second) == column_after(origin, first + second),
{
    let a = origin as int;
    let b = first as int;
    let c = second as int;
    assert(((a + b) % 0x1_0000 + c) % 0x1_0000 == (a + b + c) % 0x1_0000) by (nonlinear_arith)
        requires
            a >= 0,
            b >= 0,
            c >= 0,
    ;
}

impl Fragment {
    /// An unstyled fragment.
    pub fn raw(content: String) -> (fragment: Fragment)
        ensures
            fragment@ == FragmentView::raw(content@),
    {
        Fragment { content, fg: None, bg: None }
    }

    /// Sets the foreground colour.
    pub fn fg(self, color: Color) -> (fragment: Fragment)
        ensures
            fragment@ == self@.fg(color),
    {
        Fragment { content: self.content, fg: Some(color), bg: self.bg }
    }

    /// Sets the background colour.
    pub fn bg(self, color: Color) -> (fragment: Fragment)
        ensures
            fragment@ == self@.bg(color),
    {
        Fragment { content: self.content, fg: self.fg, bg: Some(color) }
    }

    /// The number of terminal cells that the fragment takes, counted in
    /// 16 bits.
    pub fn width(&self) -> (cells: u16)
        ensures
            cells == column_after(0, self@.width()),
    {
        let cells: usize = cell_width(self.content.as_str());
        (cells % 0x1_0000) as u16
    }

    /// The column that follows this fragment when it starts at `origin`.
    pub fn end_column(&self, origin: u16) -> (column: u16)
        ensures
            column == column_after(origin, self@.width()),
    {
        let low: u16 = self.width();
        let sum: u32 = origin as u32 + low as u32;
        proof {
            let a = origin as int;
            let b = self@.width() as int;
            assert((a + b % 0x1_0000) % 0x1_0000 == (a + b) % 0x1_0000) by (nonlinear_arith)
                requires
                    a >= 0,
                    b >= 0,
            ;
        }
        (sum % 0x1_0000) as u16
    }

    /// An unstyled fragment that shows `text`.
    pub fn text(text: &str) -> (fragment: Fragment)
        ensures
            fragment@ == FragmentView::raw(text@),
    {
        Fragment::raw(text.to_owned())
    }

    /// An unstyled fragment that shows `value` and a percent sign.
    pub fn percent(value: &str) -> (fragment: Fragment)
        ensures
            fragment@ == FragmentView::raw(value@ + "%"@),
    {
        let mut content = value.to_owned();
        content.append("%");
        Fragment::raw(content)
    }
}

impl Clone for Fragment {
    fn clone(&self) -> (copy: Fragment)
        ensures
            copy == *self,
    {
        Fragment { content: self.content.clone(), fg: self.fg, bg: self.bg }
    }
}

/// The views of a sequence of fragments.
pub open spec fn fragment_views(fragments: Seq<Fragment>) -> Seq<FragmentView> {
    fragments.map_values(|f: Fragment| f@)
}

/// The column that follows `fragments` laid out from `origin`.
pub fn end_column_of(fragments: &Vec<Fragment>, origin: u16) -> (column: u16)
    ensures
        column == column_after(origin, total_width(fragment_views(fragments@))),
{
    let mut column: u16 = origin;
    let mut i: usize = 0;
    while i < fragments.len()
        invariant
            i <= fragments.len(),
            column == column_after(
                origin,
                total_width(fragment_views(fragments@.subrange(0, i as int))),
            ),
        decreases fragments.len() - i,
    {
        let ghost before = fragment_views(fragments@.subrange(0, i as int));
        let ghost after = fragment_views(fragments@.subrange(0, i + 1));
        proof {
            assert(after.drop_last() =~= before);
            assert(after.last() == fragments@[i as int]@);
            lemma_column_after_twice(origin, total_width(before), after.last().width());
        }
        column = fragments[i].end_column(column);
        i += 1;
    }
    assert(fragments@.subrange(0, fragments.len() as int) =~= fragments@);
    column
}

} // verus!
