//! Shared behaviours of the scrollable panels: the row under the mouse, and
//! which region a mouse wheel scrolls.
use vstd::prelude::*;

use crate::geometry::Rect;

verus! {

/// The content row under the mouse in a list drawn into `results` and
/// scrolled to `scroll_line`.
pub open spec fn hovered_row_spec(mouse: Option<(u16, u16)>, results: Rect, scroll_line: usize) -> Option<int> {
    match mouse {
        None => None,
        Some(m) => if results.has(m.0 as int, m.1 as int) {
            Some(scroll_line + (m.1 - results.y))
        } else {
            None
        },
    }
}

/// Computes the hovered content row for a scrollable list: the row index the
/// cursor is over, or `None` when the cursor is outside the list or its
/// position is unknown.
pub fn hovered_row(mouse: Option<(u16, u16)>, results: Rect, scroll_line: usize) -> (r: Option<usize>)
    requires
        results.wf(),
        scroll_line + u16::MAX <= usize::MAX,
    ensures
        r == (match hovered_row_spec(mouse, results, scroll_line) {
            Some(k) => Some(k as usize),
            None => None::<usize>,
        }),
{
    let (mx, my) = match mouse {
        Some(m) => m,
        None => {
            return None;
        },
    };
    if mx < results.x || mx >= results.x + results.width || my < results.y || my >= results.y + results.height {
        return None;
    }
    Some(scroll_line + (my - results.y) as usize)
}

/// Which region the cursor is over, for scroll dispatch.
#[derive(Debug, Clone, Copy, PartialEq, Eq, Structural)]
pub enum ScrollRegion {
    /// Over the sidebar: the index of the component under the cursor in the
    /// sidebar order.
    Sidebar { component: usize },
    /// Over the library's content area.
    Library,
    /// Over no scrollable region (now-playing bar, scrub bar, help bar).
    Nowhere,
}

/// The first component whose rows hold row `y`.
pub open spec fn component_at(rects: Seq<Rect>, y: u16) -> Option<int>
    decreases rects.len(),
{
    if rects.len() == 0 {
        None
    } else {
        match component_at(rects.drop_last(), y) {
            Some(i) => Some(i),
            None => if rects.last().y <= y < rects.last().y + rects.last().height {
                Some(rects.len() - 1)
            } else {
                None
            },
        }
    }
}

/// The region a wheel event at `mouse` scrolls: the sidebar component under
/// it (the first one, when between components) if it is over the sidebar,
/// which takes priority; else the library if it is over the content; else
/// none.
pub open spec fn scroll_region_spec(mouse: Option<(u16, u16)>, content: Rect, sidebar_area: Option<Rect>, rects: Seq<Rect>)
    -> ScrollRegion {
    match mouse {
        None => ScrollRegion::Nowhere,
        Some(m) => {
            if sidebar_area is Some && sidebar_area.unwrap().has(m.0 as int, m.1 as int) {
                match component_at(rects, m.1) {
                    Some(i) => ScrollRegion::Sidebar { component: i as usize },
                    None => ScrollRegion::Sidebar { component: 0 },
                }
            } else if content.has(m.0 as int, m.1 as int) {
                ScrollRegion::Library
            } else {
                ScrollRegion::Nowhere
            }
        },
    }
}

/// Resolves the cursor position to the scrollable region it is over.
/// `content` is the library's content rect; `sidebar_area` is the sidebar
/// rect, if visible, and `component_rects` the rects of its components in
/// order.
pub fn scroll_region_at(mouse: Option<(u16, u16)>, content: Rect, sidebar_area: Option<Rect>, component_rects: &Vec<Rect>)
    -> (r: ScrollRegion)
    requires
        content.wf(),
        sidebar_area matches Some(s) ==> s.wf(),
        forall|i: int| 0 <= i < component_rects@.len() ==> (#[trigger] component_rects@[i]).wf(),
    ensures
        r == scroll_region_spec(mouse, content, sidebar_area, component_rects@),
{
    let (mx, my) = match mouse {
        Some(m) => m,
        None => {
            return ScrollRegion::Nowhere;
        },
    };
    match sidebar_area {
        Some(s) => {
            if my >= s.y && my < s.y + s.height && mx >= s.x && mx < s.x + s.width {
                let mut i: usize = 0;
                assert(component_rects@.take(0) =~= Seq::<Rect>::empty());
                while i < component_rects.len()
                    invariant
                        i <= component_rects.len(),
                        forall|k: int| 0 <= k < component_rects@.len() ==> (#[trigger] component_rects@[k]).wf(),
                        component_at(component_rects@.take(i as int), my) is None,
                        mouse == Some((mx, my)),
                        sidebar_area == Some(s),
                        s.has(mx as int, my as int),
                    decreases component_rects.len() - i,
                {
                    let r = component_rects[i];
                    let ghost t = component_rects@.take(i + 1);
                    assert(t.drop_last() =~= component_rects@.take(i as int));
                    if my >= r.y && my < r.y + r.height {
                        assert(t.last() == r);
                        assert(component_at(t, my) == Some(i as int));
                        proof {
                            lemma_component_at_prefix(component_rects@, my, i + 1);
                        }
                        return ScrollRegion::Sidebar { component: i };
                    }
                    i = i + 1;
                }
                assert(component_rects@.take(i as int) =~= component_rects@);
                return ScrollRegion::Sidebar { component: 0 };
            }
        },
        None => {},
    }
    if my >= content.y && my < content.y + content.height && mx >= content.x && mx < content.x + content.width {
        return ScrollRegion::Library;
    }
    ScrollRegion::Nowhere
}

/// Where a prefix of the rects already holds `y`, its component is that of
/// all the rects.
pub proof fn lemma_component_at_prefix(rects: Seq<Rect>, y: u16, j: int)
    requires
        0 <= j <= rects.len(),
        component_at(rects.take(j), y) is Some,
    ensures
        component_at(rects, y) == component_at(rects.take(j), y),
    decreases rects.len() - j,
{
    if j < rects.len() {
        assert(rects.take(j + 1).drop_last() =~= rects.take(j));
        lemma_component_at_prefix(rects, y, j + 1);
    } else {
        assert(rects.take(j) =~= rects);
    }
}

} // verus!
