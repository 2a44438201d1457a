//! Click regions: rectangles of the rendered frame that carry an action.

use vstd::prelude::*;

verus! {

/// What a click on a region asks the window manager to do.
#[derive(Debug)]
pub enum ClickTarget {
    /// Focus the workspace with this identifier.
    Workspace(String),
    /// Focus the window at this address.
    Window(String),
}

/// A rectangle of terminal cells and the action bound to it.
///
/// The rectangle is half-open: it holds the columns `x .. x + width` and the
/// rows `y .. y + height`.
#[derive(Debug)]
pub struct ClickArea {
    pub x: u16,
    pub y: u16,
    pub width: u16,
    pub height: u16,
    pub target: ClickTarget,
}

impl ClickArea {
    /// Tests a cell against the rectangle: the left and top edges belong to
    /// it, the right and bottom edges do not.
    pub fn contains(&self, x: u16, y: u16) -> (inside: bool)
        ensures
            inside == self@.covers(x as int, y as int),
    {
        let right: u32 = self.x as u32 + self.width as u32;
        let bottom: u32 = self.y as u32 + self.height as u32;
        x >= self.x && (x as u32) < right && y >= self.y && (y as u32) < bottom
    }
}

/// What a click target stands for.
pub enum ClickTargetView {
    Workspace(Seq<char>),
    Window(Seq<char>),
}

/// A click region with its target by content.
pub struct ClickAreaView {
    pub x: u16,
    pub y: u16,
    pub width: u16,
    pub height: u16,
    pub target: ClickTargetView,
}

impl View for ClickTarget {
    type V = ClickTargetView;

    open spec fn view(&self) -> ClickTargetView {
        match self {
            ClickTarget::Workspace(id) => ClickTargetView::Workspace(id@),
            ClickTarget::Window(address) => ClickTargetView::Window(address@),
        }
    }
}

impl View for ClickArea {
    type V = ClickAreaView;

    open spec fn view(&self) -> ClickAreaView {
        ClickAreaView {
            x: self.x,
            y: self.y,
            width: self.width,
            height: self.height,
            target: self.target@,
        }
    }
}

impl ClickAreaView {
    /// Whether the cell `(px, py)` lies inside the rectangle.
    pub open spec fn covers(self, px: int, py: int) -> bool {
        &&& self.x <= px < self.x + self.width
        &&& self.y <= py < self.y + self.height
    }
}

/// The views of a run of click regions.
pub open spec fn click_area_views(areas: Seq<ClickArea>) -> Seq<ClickAreaView> {
    areas.map_values(|a: ClickArea| a@)
}

impl Clone for ClickTarget {
    fn clone(&self) -> (copy: ClickTarget)
        ensures
            copy == *self,
    {
        match self {
            ClickTarget::Workspace(id) => ClickTarget::Workspace(id.clone()),
            ClickTarget::Window(address) => ClickTarget::Window(address.clone()),
        }
    }
}

impl Clone for ClickArea {
    fn clone(&self) -> (copy: ClickArea)
        ensures
            copy == *self,
    {
        ClickArea {
            x: self.x,
            y: self.y,
            width: self.width,
            height: self.height,
            target: self.target.clone(),
        }
    }
}

/// The region that a click on `(px, py)` reaches: the first of `areas`, in
/// their order, that covers the cell. Nothing where none covers it.
pub open spec fn first_hit(areas: Seq<ClickAreaView>, px: int, py: int) -> Option<int>
    decreases areas.len(),
{
    if areas.len() == 0 {
        None
    } else if areas[0].covers(px, py) {
        Some(0)
    } else {
        match first_hit(areas.drop_first(), px, py) {
            Some(i) => Some(i + 1),
            None => None,
        }
    }
}

/// The action that a click on `(px, py)` sets off: the target of the region
/// it reaches.
pub open spec fn dispatched(areas: Seq<ClickAreaView>, px: int, py: int) -> Option<ClickTargetView> {
    match first_hit(areas, px, py) {
        Some(i) => Some(areas[i].target),
        None => None,
    }
}

/// No two of `areas` share a cell.
pub open spec fn non_overlapping(areas: Seq<ClickAreaView>) -> bool {
    forall|i: int, j: int, px: int, py: int|
        0 <= i < j < areas.len() ==> !(#[trigger] areas[i].covers(px, py) && #[trigger] areas[j].covers(
            px,
            py,
        ))
}

/// The region a click reaches covers the cell, and no region before it
/// does; a click reaches nothing only where no region covers the cell.
pub proof fn lemma_first_hit(areas: Seq<ClickAreaView>, px: int, py: int)
    ensures
        match first_hit(areas, px, py) {
            Some(i) => {
                &&& 0 <= i < areas.len()
                &&& areas[i].covers(px, py)
                &&& forall|j: int| 0 <= j < i ==> !(#[trigger] areas[j]).covers(px, py)
            },
            None => forall|j: int| 0 <= j < areas.len() ==> !(#[trigger] areas[j]).covers(px, py),
        },
    decreases areas.len(),
{
    if areas.len() > 0 && !areas[0].covers(px, py) {
        let rest = areas.drop_first();
        lemma_first_hit(rest, px, py);
        match first_hit(rest, px, py) {
            Some(i) => {
                assert(areas[i + 1] == rest[i]);
                assert forall|j: int| 0 <= j < i + 1 implies !(#[trigger] areas[j]).covers(px, py) by {
                    if j > 0 {
                        assert(areas[j] == rest[j - 1]);
                    }
                }
            },
            None => {
                assert forall|j: int| 0 <= j < areas.len() implies !(#[trigger] areas[j]).covers(
                    px,
                    py,
                ) by {
                    if j > 0 {
                        assert(areas[j] == rest[j - 1]);
                    }
                }
            },
        }
    }
}

/// Where regions overlap, the first one in their order wins: a click on a
/// cell reaches the region `i` that covers it if no region before `i` covers
/// it, whatever regions follow.
pub proof fn lemma_first_region_wins(areas: Seq<ClickAreaView>, px: int, py: int, i: int)
    requires
        0 <= i < areas.len(),
        areas[i].covers(px, py),
        forall|j: int| 0 <= j < i ==> !(#[trigger] areas[j]).covers(px, py),
    ensures
        first_hit(areas, px, py) == Some(i),
        dispatched(areas, px, py) == Some(areas[i].target),
{
    lemma_first_hit(areas, px, py);
    match first_hit(areas, px, py) {
        Some(k) => {
            if k > i {
                assert(!areas[i].covers(px, py));
            }
        },
        None => {
            assert(!areas[i].covers(px, py));
        },
    }
}

/// Among regions that do not overlap, a click on a cell sets off the action
/// of the one region that covers the cell.
pub proof fn lemma_dispatch_unique(areas: Seq<ClickAreaView>, px: int, py: int, i: int)
    requires
        non_overlapping(areas),
        0 <= i < areas.len(),
        areas[i].covers(px, py),
    ensures
        first_hit(areas, px, py) == Some(i),
        dispatched(areas, px, py) == Some(areas[i].target),
        forall|j: int| 0 <= j < areas.len() && (#[trigger] areas[j]).covers(px, py) ==> j == i,
{
    assert forall|j: int| 0 <= j < areas.len() && (#[trigger] areas[j]).covers(px, py) implies j
        == i by {
        if j < i {
            assert(!(areas[j].covers(px, py) && areas[i].covers(px, py)));
        } else if i < j {
            assert(!(areas[i].covers(px, py) && areas[j].covers(px, py)));
        }
    }
    lemma_first_region_wins(areas, px, py, i);
}

/// A click on a cell that no region covers sets off nothing.
pub proof fn lemma_dispatch_none(areas: Seq<ClickAreaView>, px: int, py: int)
    requires
        forall|j: int| 0 <= j < areas.len() ==> !(#[trigger] areas[j]).covers(px, py),
    ensures
        first_hit(areas, px, py).is_none(),
        dispatched(areas, px, py).is_none(),
{
    lemma_first_hit(areas, px, py);
    match first_hit(areas, px, py) {
        Some(k) => {
            assert(!areas[k].covers(px, py));
        },
        None => {},
    }
}

/// Among two runs of regions laid one after the other, a click sets off
/// what it sets off in the first run, and what it sets off in the second
/// only where it reaches nothing in the first.
pub proof fn lemma_dispatch_append(
    first: Seq<ClickAreaView>,
    second: Seq<ClickAreaView>,
    px: int,
    py: int,
)
    ensures
        dispatched(first + second, px, py) == if dispatched(first, px, py).is_some() {
            dispatched(first, px, py)
        } else {
            dispatched(second, px, py)
        },
{
    let all = first + second;
    lemma_first_hit(first, px, py);
    lemma_first_hit(second, px, py);
    match first_hit(first, px, py) {
        Some(i) => {
            assert(all[i] == first[i]);
            assert forall|j: int| 0 <= j < i implies !(#[trigger] all[j]).covers(px, py) by {
                assert(all[j] == first[j]);
            }
            lemma_first_region_wins(all, px, py, i);
        },
        None => {
            match first_hit(second, px, py) {
                Some(k) => {
                    let at = first.len() + k;
                    assert(all[at] == second[k]);
                    assert forall|j: int| 0 <= j < at implies !(#[trigger] all[j]).covers(px, py) by {
                        if j < first.len() {
                            assert(all[j] == first[j]);
                        } else {
                            assert(all[j] == second[j - first.len()]);
                        }
                    }
                    lemma_first_region_wins(all, px, py, at);
                },
                None => {
                    assert forall|j: int| 0 <= j < all.len() implies !(#[trigger] all[j]).covers(
                        px,
                        py,
                    ) by {
                        if j < first.len() {
                            assert(all[j] == first[j]);
                        } else {
                            assert(all[j] == second[j - first.len()]);
                        }
                    }
                    lemma_dispatch_none(all, px, py);
                },
            }
        },
    }
}

/// Finds the region that a click on `(x, y)` reaches: the position of the
/// first of `areas` that contains the cell.
pub fn find_click_area(areas: &Vec<ClickArea>, x: u16, y: u16) -> (hit: Option<usize>)
    ensures
        match hit {
            Some(i) => i < areas.len() && first_hit(click_area_views(areas@), x as int, y as int)
                == Some(i as int),
            None => first_hit(click_area_views(areas@), x as int, y as int).is_none(),
        },
{
    let mut i: usize = 0;
    while i < areas.len()
        invariant
            i <= areas.len(),
            forall|j: int|
                0 <= j < i ==> !(#[trigger] click_area_views(areas@)[j]).covers(x as int, y as int),
        decreases areas.len() - i,
    {
        assert(click_area_views(areas@)[i as int] == areas@[i as int]@);
        if areas[i].contains(x, y) {
            proof {
                lemma_first_region_wins(click_area_views(areas@), x as int, y as int, i as int);
            }
            return Some(i);
        }
        i += 1;
    }
    proof {
        lemma_dispatch_none(click_area_views(areas@), x as int, y as int);
    }
    None
}

} // verus!
