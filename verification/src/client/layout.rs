//! Screen regions: the rectangles the last frame was drawn into, and
//! hit-testing of mouse clicks against them.

use ratatui::layout as tui;
use vstd::prelude::*;

verus! {

/// A rectangle of terminal cells. Rectangles handed out by the terminal
/// layer never reach past the last addressable cell (see [`Rect::inv`]).
#[derive(Debug, Clone, Copy, PartialEq, Eq, Structural)]
pub struct Rect {
    pub x: u16,
    pub y: u16,
    pub width: u16,
    pub height: u16,
}

impl Rect {
    /// The rectangle's right and bottom edges are addressable.
    pub open spec fn inv(self) -> bool {
        self.x + self.width <= u16::MAX && self.y + self.height <= u16::MAX
    }

    /// The cell at `(col, row)` lies inside the rectangle.
    pub open spec fn holds(self, col: u16, row: u16) -> bool {
        self.x <= col < self.x + self.width && self.y <= row < self.y + self.height
    }

    pub fn contains(&self, col: u16, row: u16) -> (r: bool)
        requires
            self.inv(),
        ensures
            r == self.holds(col, row),
    {
        col >= self.x && col < self.x + self.width && row >= self.y && row < self.y
            + self.height
    }
}

/// Layout rectangles cached after each draw for mouse hit-testing.
#[derive(Debug, Clone)]
pub struct LayoutRects {
    pub sidebar: Option<Rect>,
    pub tabs: Rect,
    pub buffer: Rect,
    pub input: Rect,
    pub status: Rect,
    pub topbar: Rect,
    pub room_header: Option<Rect>,
    /// (`buffer_idx_if_selectable`, `row_rect`) for each sidebar row.
    /// `None` indicates a header row (no buffer associated).
    pub sidebar_items: Vec<(Option<usize>, Rect)>,
    /// (`buffer_idx`, `tab_rect`) for each tab in the tab strip.
    pub tab_items: Vec<(usize, Rect)>,
}

impl LayoutRects {
    /// Every rectangle of the layout is addressable.
    pub open spec fn inv(&self) -> bool {
        &&& (self.sidebar matches Some(s) ==> s.inv())
        &&& self.tabs.inv()
        &&& self.buffer.inv()
        &&& self.input.inv()
        &&& forall|k: int| 0 <= k < self.sidebar_items@.len() ==> (#[trigger] self.sidebar_items@[k]).1.inv()
        &&& forall|k: int| 0 <= k < self.tab_items@.len() ==> (#[trigger] self.tab_items@[k]).1.inv()
    }
}

/// Result of `region_at` — what was clicked.
#[derive(Debug, Clone, Copy, PartialEq, Eq, Structural)]
pub enum MouseHit {
    Sidebar { selected_buffer_idx: Option<usize> },
    Tab { buffer_idx: usize },
    Buffer,
    Input,
}

/// The first sidebar row that holds the cell, if any.
pub open spec fn sidebar_row_at(items: Seq<(Option<usize>, Rect)>, col: u16, row: u16) -> Option<Option<usize>>
    decreases items.len(),
{
    if items.len() == 0 {
        None
    } else if items[0].1.holds(col, row) {
        Some(items[0].0)
    } else {
        sidebar_row_at(items.drop_first(), col, row)
    }
}

/// The first tab that holds the cell, if any.
pub open spec fn tab_at(items: Seq<(usize, Rect)>, col: u16, row: u16) -> Option<usize>
    decreases items.len(),
{
    if items.len() == 0 {
        None
    } else if items[0].1.holds(col, row) {
        Some(items[0].0)
    } else {
        tab_at(items.drop_first(), col, row)
    }
}

/// What a click at `(col, row)` hits. The sidebar takes precedence (a click
/// on it outside any row selects nothing); then the tab strip (a click on it
/// outside any tab hits nothing); then the input line; then the buffer.
/// The status bar, the top bar and gutters hit nothing.
pub open spec fn region_spec(col: u16, row: u16, l: LayoutRects) -> Option<MouseHit> {
    if l.sidebar matches Some(sb) && sb.holds(col, row) {
        Some(
            MouseHit::Sidebar {
                selected_buffer_idx: match sidebar_row_at(l.sidebar_items@, col, row) {
                    Some(idx) => idx,
                    None => None,
                },
            },
        )
    } else if l.tabs.holds(col, row) {
        match tab_at(l.tab_items@, col, row) {
            Some(i) => Some(MouseHit::Tab { buffer_idx: i }),
            None => None,
        }
    } else if l.input.holds(col, row) {
        Some(MouseHit::Input)
    } else if l.buffer.holds(col, row) {
        Some(MouseHit::Buffer)
    } else {
        None
    }
}

/// Map a mouse click at (col, row) to a region. Returns `None` for clicks
/// outside all focusable regions (status bar, top bar, gutters).
pub fn region_at(col: u16, row: u16, layout: &LayoutRects) -> (r: Option<MouseHit>)
    requires
        layout.inv(),
    ensures
        r == region_spec(col, row, *layout),
{
    if let Some(sb) = layout.sidebar {
        if sb.contains(col, row) {
            let items = &layout.sidebar_items;
            let mut k: usize = 0;
            assert(items@.skip(0) =~= items@);
            while k < items.len()
                invariant
                    layout.inv(),
                    layout.sidebar == Some(sb),
                    sb.holds(col, row),
                    items@ == layout.sidebar_items@,
                    k <= items@.len(),
                    sidebar_row_at(items@, col, row) == sidebar_row_at(items@.skip(k as int), col, row),
                decreases items@.len() - k,
            {
                let (idx, rect) = items[k];
                assert(items@.skip(k as int)[0] == items@[k as int]);
                assert(items@.skip(k as int).drop_first() =~= items@.skip(k + 1));
                if rect.contains(col, row) {
                    return Some(MouseHit::Sidebar { selected_buffer_idx: idx });
                }
                k = k + 1;
            }
            assert(items@.skip(k as int) =~= Seq::<(Option<usize>, Rect)>::empty());
            return Some(MouseHit::Sidebar { selected_buffer_idx: None });
        }
    }
    if layout.tabs.contains(col, row) {
        let items = &layout.tab_items;
        let mut k: usize = 0;
        assert(items@.skip(0) =~= items@);
        while k < items.len()
            invariant
                layout.inv(),
                layout.tabs.holds(col, row),
                !(layout.sidebar matches Some(sb) && sb.holds(col, row)),
                items@ == layout.tab_items@,
                k <= items@.len(),
                tab_at(items@, col, row) == tab_at(items@.skip(k as int), col, row),
            decreases items@.len() - k,
        {
            let (idx, rect) = items[k];
            assert(items@.skip(k as int)[0] == items@[k as int]);
            assert(items@.skip(k as int).drop_first() =~= items@.skip(k + 1));
            if rect.contains(col, row) {
                return Some(MouseHit::Tab { buffer_idx: idx });
            }
            k = k + 1;
        }
        assert(items@.skip(k as int) =~= Seq::<(usize, Rect)>::empty());
        return None;
    }
    if layout.input.contains(col, row) {
        return Some(MouseHit::Input);
    }
    if layout.buffer.contains(col, row) {
        return Some(MouseHit::Buffer);
    }
    None
}

/// A size constraint on one region of a split: an exact length, or at least
/// a length (taking what is left).
#[derive(Debug, Clone, Copy, PartialEq, Eq, Structural)]
pub enum Constraint {
    Length(u16),
    Min(u16),
}

/// The regions ratatui's layout solver cuts `area` into, top to bottom
/// (`vertical`) or left to right, one per constraint. It depends on these
/// arguments alone.
pub uninterp spec fn split_areas(area: Rect, vertical: bool, constraints: Seq<Constraint>) -> Seq<Rect>;

/// `ratatui::layout::Layout::split` with the given direction and
/// constraints: one region per constraint. The regions are named, not
/// stated; the solver is ratatui's.
#[verifier::external_body]
fn split(area: Rect, vertical: bool, constraints: &[Constraint]) -> (r: Vec<Rect>)
    ensures
        r@ == split_areas(area, vertical, constraints@),
        r@.len() == constraints@.len(),
{
    let dir = if vertical { tui::Direction::Vertical } else { tui::Direction::Horizontal };
    let cs = constraints.iter().map(|c| match *c {
        Constraint::Length(n) => tui::Constraint::Length(n),
        Constraint::Min(n) => tui::Constraint::Min(n),
    });
    let whole = tui::Rect::new(area.x, area.y, area.width, area.height);
    let rects = tui::Layout::default().direction(dir).constraints(cs).split(whole);
    rects.iter().map(|r| Rect { x: r.x, y: r.y, width: r.width, height: r.height }).collect()
}

/// Where each region of the screen goes.
#[derive(Debug, Clone, Copy, PartialEq, Eq, Structural)]
pub struct ScreenRegions {
    pub topbar: Rect,
    pub sidebar: Option<Rect>,
    pub tabs: Rect,
    pub room_header: Option<Rect>,
    pub buffer: Rect,
    pub input: Rect,
    pub status_left: Rect,
    pub status_right: Rect,
}

pub open spec fn outer_constraints() -> Seq<Constraint> {
    seq![Constraint::Length(1), Constraint::Min(0), Constraint::Length(1)]
}

pub open spec fn sidebar_constraints() -> Seq<Constraint> {
    seq![Constraint::Length(24), Constraint::Min(0)]
}

pub open spec fn main_constraints(needs_header: bool) -> Seq<Constraint> {
    if needs_header {
        seq![Constraint::Length(2), Constraint::Length(1), Constraint::Min(0), Constraint::Length(1)]
    } else {
        seq![Constraint::Length(2), Constraint::Min(0), Constraint::Length(1)]
    }
}

pub open spec fn status_constraints() -> Seq<Constraint> {
    seq![Constraint::Min(0), Constraint::Length(40)]
}

/// The screen's regions: a one-row top bar and status bar around the middle;
/// in the middle an optional 24-column sidebar beside the main column; the
/// main column holds the two-row tab strip, the optional room header, the
/// buffer and a one-row input line; the status bar keeps 40 columns on its
/// right.
pub open spec fn regions_of(area: Rect, sidebar_visible: bool, needs_header: bool) -> ScreenRegions {
    let outer = split_areas(area, true, outer_constraints());
    let sp = split_areas(outer[1], false, sidebar_constraints());
    let main = if sidebar_visible { sp[1] } else { outer[1] };
    let m = split_areas(main, true, main_constraints(needs_header));
    let st = split_areas(outer[2], false, status_constraints());
    ScreenRegions {
        topbar: outer[0],
        sidebar: if sidebar_visible { Some(sp[0]) } else { None },
        tabs: m[0],
        room_header: if needs_header { Some(m[1]) } else { None },
        buffer: if needs_header { m[2] } else { m[1] },
        input: if needs_header { m[3] } else { m[2] },
        status_left: st[0],
        status_right: st[1],
    }
}

pub fn screen_regions(area: Rect, sidebar_visible: bool, needs_header: bool) -> (r: ScreenRegions)
    ensures
        r == regions_of(area, sidebar_visible, needs_header),
{
    let outer_cs = vec![Constraint::Length(1), Constraint::Min(0), Constraint::Length(1)];
    assert(outer_cs@ =~= outer_constraints());
    let outer = split(area, true, outer_cs.as_slice());
    let side_cs = vec![Constraint::Length(24), Constraint::Min(0)];
    assert(side_cs@ =~= sidebar_constraints());
    let sp = split(outer[1], false, side_cs.as_slice());
    let main = if sidebar_visible { sp[1] } else { outer[1] };
    let main_cs = if needs_header {
        vec![Constraint::Length(2), Constraint::Length(1), Constraint::Min(0), Constraint::Length(1)]
    } else {
        vec![Constraint::Length(2), Constraint::Min(0), Constraint::Length(1)]
    };
    assert(main_cs@ =~= main_constraints(needs_header));
    let m = split(main, true, main_cs.as_slice());
    let st_cs = vec![Constraint::Min(0), Constraint::Length(40)];
    assert(st_cs@ =~= status_constraints());
    let st = split(outer[2], false, st_cs.as_slice());
    ScreenRegions {
        topbar: outer[0],
        sidebar: if sidebar_visible { Some(sp[0]) } else { None },
        tabs: m[0],
        room_header: if needs_header { Some(m[1]) } else { None },
        buffer: if needs_header { m[2] } else { m[1] },
        input: if needs_header { m[3] } else { m[2] },
        status_left: st[0],
        status_right: st[1],
    }
}

/// The row the too-small notice sits on: the middle of a three-way split of
/// the screen, one row tall.
pub open spec fn notice_row_of(area: Rect) -> Rect {
    split_areas(area, true, seq![Constraint::Min(0), Constraint::Length(1), Constraint::Min(0)])[1]
}

pub fn notice_row(area: Rect) -> (r: Rect)
    ensures
        r == notice_row_of(area),
{
    let cs = vec![Constraint::Min(0), Constraint::Length(1), Constraint::Min(0)];
    assert(cs@ =~= seq![Constraint::Min(0), Constraint::Length(1), Constraint::Min(0)]);
    let parts = split(area, true, cs.as_slice());
    parts[1]
}

} // verus!
