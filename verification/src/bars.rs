//! The three bars. Each lays the components of its region out from left
//! to right and collects their click regions.

use vstd::prelude::*;
use crate::click::{click_area_views, ClickArea, ClickAreaView};
use crate::component_manager::{borrowed_views, Component, ComponentManager, ComponentView};
use crate::config::lemma_region_names;
use crate::style::{
    column_after, end_column_of, fragment_views, lemma_column_after_twice,
    lemma_total_width_append, total_width, Fragment, FragmentView,
};

verus! {

/// A rectangle of terminal cells.
#[derive(Debug, Clone, Copy, PartialEq, Eq, Structural)]
pub struct Rect {
    pub x: u16,
    pub y: u16,
    pub width: u16,
    pub height: u16,
}

/// What a bar drew in one frame.
#[derive(Debug)]
pub struct RenderedBar {
    /// The line of the bar; `None` where the region has no component and
    /// nothing is drawn.
    pub line: Option<Vec<Fragment>>,
    /// The click regions of this frame.
    pub click_areas: Vec<ClickArea>,
}

/// A rendered bar by content.
pub struct RenderedBarView {
    pub line: Option<Seq<FragmentView>>,
    pub click_areas: Seq<ClickAreaView>,
}

impl View for RenderedBar {
    type V = RenderedBarView;

    open spec fn view(&self) -> RenderedBarView {
        RenderedBarView {
            line: match self.line {
                Some(l) => Some(fragment_views(l@)),
                None => None,
            },
            click_areas: click_area_views(self.click_areas@),
        }
    }
}

/// The fragments of `components` in a row.
pub open spec fn line_of(components: Seq<ComponentView>, colorize: bool) -> Seq<FragmentView>
    decreases components.len(),
{
    if components.len() == 0 {
        Seq::empty()
    } else {
        line_of(components.drop_last(), colorize) + components.last().rendered(colorize)
    }
}

/// The column at which the component at position `index` starts when the
/// row begins at `origin_x`: every component before it moves the cursor on
/// by the cells of its fragments.
pub open spec fn cursor_at(components: Seq<ComponentView>, colorize: bool, origin_x: u16, index: int) -> u16 {
    column_after(origin_x, total_width(line_of(components.subrange(0, index), colorize)))
}

/// The click regions of `components` laid out in a row from
/// `(origin_x, origin_y)`, in the order of the components.
pub open spec fn click_areas_of(
    components: Seq<ComponentView>,
    colorize: bool,
    origin_x: u16,
    origin_y: u16,
) -> Seq<ClickAreaView>
    decreases components.len(),
{
    if components.len() == 0 {
        Seq::empty()
    } else {
        click_areas_of(components.drop_last(), colorize, origin_x, origin_y)
            + components.last().click_areas(
            cursor_at(components, colorize, origin_x, components.len() - 1),
            origin_y,
        )
    }
}

/// What a bar draws for `components` in `area`: nothing for an empty
/// region, else the row of all fragments and the click regions.
pub open spec fn rendered_bar(components: Seq<ComponentView>, colorize: bool, area: Rect) -> RenderedBarView {
    if components.len() == 0 {
        RenderedBarView { line: None, click_areas: Seq::empty() }
    } else {
        RenderedBarView {
            line: Some(line_of(components, colorize)),
            click_areas: click_areas_of(components, colorize, area.x, area.y),
        }
    }
}

/// Lays `components` out in `area`.
pub fn render_components(components: &Vec<&Component>, colorize: bool, area: Rect) -> (bar: RenderedBar)
    ensures
        bar@ == rendered_bar(borrowed_views(components@), colorize, area),
{
    if components.len() == 0 {
        let bar = RenderedBar { line: None, click_areas: Vec::new() };
        assert(bar@.click_areas =~= Seq::empty());
        return bar;
    }
    let ghost views = borrowed_views(components@);
    let mut all_spans: Vec<Fragment> = Vec::new();
    let mut all_click_areas: Vec<ClickArea> = Vec::new();
    let mut current_x: u16 = area.x;
    let mut i: usize = 0;
    while i < components.len()
        invariant
            i <= components.len(),
            views == borrowed_views(components@),
            fragment_views(all_spans@) == line_of(views.subrange(0, i as int), colorize),
            click_area_views(all_click_areas@) == click_areas_of(
                views.subrange(0, i as int),
                colorize,
                area.x,
                area.y,
            ),
            current_x == column_after(area.x, total_width(fragment_views(all_spans@))),
        decreases components.len() - i,
    {
        let ghost before = views.subrange(0, i as int);
        let ghost after = views.subrange(0, i + 1);
        let ghost old_spans = fragment_views(all_spans@);
        let ghost old_areas = click_area_views(all_click_areas@);
        proof {
            assert(after.drop_last() =~= before);
            assert(after.last() == components@[i as int]@);
            assert(after.subrange(0, after.len() - 1) =~= before);
        }
        let (mut spans, mut click_areas) = components[i].render_as_spans_with_bounds_and_colorize(
            colorize,
            current_x,
            area.y,
        );
        let ghost new_spans = fragment_views(spans@);
        let ghost new_areas = click_area_views(click_areas@);
        let next_x = end_column_of(&spans, current_x);
        all_spans.append(&mut spans);
        all_click_areas.append(&mut click_areas);
        proof {
            assert(fragment_views(all_spans@) =~= old_spans + new_spans);
            assert(click_area_views(all_click_areas@) =~= old_areas + new_areas);
            lemma_total_width_append(old_spans, new_spans);
            lemma_column_after_twice(area.x, total_width(old_spans), total_width(new_spans));
        }
        current_x = next_x;
        i += 1;
    }
    assert(views.subrange(0, i as int) =~= views);
    RenderedBar { line: Some(all_spans), click_areas: all_click_areas }
}

/// The bar of the left region.
#[derive(Debug, Clone, Copy, PartialEq, Eq, Structural)]
pub struct LeftBar;

/// The bar of the middle region.
#[derive(Debug, Clone, Copy, PartialEq, Eq, Structural)]
pub struct MiddleBar;

/// The bar of the right region.
#[derive(Debug, Clone, Copy, PartialEq, Eq, Structural)]
pub struct RightBar;

impl LeftBar {
    /// The bar.
    pub fn new() -> LeftBar {
        LeftBar
    }

    /// A bar keeps no state of its own: there is nothing to update.
    pub fn update(&mut self)
        ensures
            *final(self) == *old(self),
    {
    }

    /// Draws the left region into `area`.
    pub fn render(&self, area: Rect, component_manager: &ComponentManager) -> (bar: RenderedBar)
        ensures
            bar@ == rendered_bar(
                component_manager@.live.left.components,
                component_manager@.live.colorize,
                area,
            ),
    {
        let components = component_manager.get_bar_components("left");
        let colorize = component_manager.get_colorize();
        render_components(&components, colorize, area)
    }
}

impl MiddleBar {
    /// The bar.
    pub fn new() -> MiddleBar {
        MiddleBar
    }

    /// A bar keeps no state of its own: there is nothing to update.
    pub fn update(&mut self)
        ensures
            *final(self) == *old(self),
    {
    }

    /// Draws the middle region into `area`.
    pub fn render(&self, area: Rect, component_manager: &ComponentManager) -> (bar: RenderedBar)
        ensures
            bar@ == rendered_bar(
                component_manager@.live.middle.components,
                component_manager@.live.colorize,
                area,
            ),
    {
        proof {
            lemma_region_names();
        }
        let components = component_manager.get_bar_components("middle");
        let colorize = component_manager.get_colorize();
        render_components(&components, colorize, area)
    }
}

impl RightBar {
    /// The bar.
    pub fn new() -> RightBar {
        RightBar
    }

    /// A bar keeps no state of its own: there is nothing to update.
    pub fn update(&mut self)
        ensures
            *final(self) == *old(self),
    {
    }

    /// Draws the right region into `area`.
    pub fn render(&self, area: Rect, component_manager: &ComponentManager) -> (bar: RenderedBar)
        ensures
            bar@ == rendered_bar(
                component_manager@.live.right.components,
                component_manager@.live.colorize,
                area,
            ),
    {
        proof {
            lemma_region_names();
        }
        let components = component_manager.get_bar_components("right");
        let colorize = component_manager.get_colorize();
        render_components(&components, colorize, area)
    }
}

} // verus!
