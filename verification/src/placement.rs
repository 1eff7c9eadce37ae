//! Where the panel's window goes: on the display under the pointer,
//! horizontally centred, a fifth of the display's height from its top.
//!
//! Coordinates are whole points. Positions are signed, since a display may
//! lie left of or above the main one; extents are unsigned.

use vstd::prelude::*;

verus! {

/// The panel's width.
pub const PANEL_WIDTH: u32 = 650;

/// The panel's height while the input is empty.
pub const BASE_HEIGHT: u32 = 75;

/// The panel's height while the input holds text and matches are listed.
pub const EXPANDED_HEIGHT: u32 = 400;

/// Of a display's height, the part that lies above the panel: one in this
/// many, that is 20 %.
pub const TOP_OFFSET_DIVISOR: u32 = 5;

/// An extent.
#[derive(Clone, Copy, Debug, PartialEq, Eq)]
pub struct Size {
    pub width: u32,
    pub height: u32,
}

/// A position.
#[derive(Clone, Copy, Debug, PartialEq, Eq)]
pub struct Point {
    pub x: i32,
    pub y: i32,
}

/// An active display: its id, its origin and its extent.
#[derive(Clone, Copy, Debug, PartialEq, Eq)]
pub struct Display {
    pub id: u32,
    pub x: i32,
    pub y: i32,
    pub width: u32,
    pub height: u32,
}

/// A rectangle: its origin and its extent.
#[derive(Clone, Copy, Debug, PartialEq, Eq)]
pub struct Bounds {
    pub x: i64,
    pub y: i64,
    pub size: Size,
}

/// Where to open the window.
#[derive(Clone, Copy, Debug, PartialEq, Eq)]
pub enum Placement {
    /// On the display with this id, at these bounds.
    OnDisplay { display: u32, bounds: Bounds },
    /// No display holds the pointer: centred wherever the window system
    /// centres a window of this size.
    Centered { size: Size },
}

/// The panel's extent while the input is empty.
pub open spec fn base_size() -> Size {
    Size { width: PANEL_WIDTH, height: BASE_HEIGHT }
}

/// The panel's extent while the input holds text.
pub open spec fn expanded_size() -> Size {
    Size { width: PANEL_WIDTH, height: EXPANDED_HEIGHT }
}

impl Display {
    /// Whether the display's bounds hold the point, edges included.
    pub open spec fn holds(self, p: Point) -> bool {
        &&& self.x <= p.x <= self.x + self.width
        &&& self.y <= p.y <= self.y + self.height
    }

    /// The panel's bounds on this display: centred between its left and
    /// right edge, a fifth of its height down.
    pub open spec fn panel_bounds(self) -> Bounds {
        Bounds {
            x: (self.x + self.width / 2 - PANEL_WIDTH / 2) as i64,
            y: (self.height / TOP_OFFSET_DIVISOR) as i64,
            size: base_size(),
        }
    }

    /// Whether the display's bounds hold the point, edges included.
    pub fn contains(&self, p: Point) -> (inside: bool)
        ensures
            inside == self.holds(p),
    {
        let px: i64 = p.x as i64;
        let py: i64 = p.y as i64;
        let left: i64 = self.x as i64;
        let top: i64 = self.y as i64;
        left <= px && px <= left + self.width as i64 && top <= py && py <= top + self.height as i64
    }

    /// The panel's bounds on this display.
    pub fn bounds_for_panel(&self) -> (bounds: Bounds)
        ensures
            bounds == self.panel_bounds(),
    {
        Bounds {
            x: self.x as i64 + (self.width / 2) as i64 - (PANEL_WIDTH / 2) as i64,
            y: (self.height / TOP_OFFSET_DIVISOR) as i64,
            size: Size { width: PANEL_WIDTH, height: BASE_HEIGHT },
        }
    }
}

/// The first display that holds the pointer.
pub open spec fn display_under(pointer: Point, displays: Seq<Display>) -> Option<int> {
    let i = first_holding(pointer, displays, 0);
    if i < displays.len() {
        Some(i)
    } else {
        None
    }
}

/// The least index from `from` on whose display holds the pointer, or the
/// number of displays when there is none.
pub open spec fn first_holding(pointer: Point, displays: Seq<Display>, from: int) -> int
    decreases displays.len() - from,
{
    if from < 0 || from >= displays.len() {
        displays.len() as int
    } else if displays[from].holds(pointer) {
        from
    } else {
        first_holding(pointer, displays, from + 1)
    }
}

/// The placement of the panel for a pointer position and the active
/// displays.
pub open spec fn placement_for(pointer: Point, displays: Seq<Display>) -> Placement {
    match display_under(pointer, displays) {
        Some(i) => Placement::OnDisplay {
            display: displays[i].id,
            bounds: displays[i].panel_bounds(),
        },
        None => Placement::Centered { size: base_size() },
    }
}

/// `first_holding` finds a display that holds the pointer whenever one
/// lies at or behind `from`, and none lies between `from` and what it
/// finds.
pub proof fn lemma_first_holding(pointer: Point, displays: Seq<Display>, from: int)
    requires
        0 <= from <= displays.len(),
    ensures
        from <= first_holding(pointer, displays, from) <= displays.len(),
        first_holding(pointer, displays, from) < displays.len() ==> displays[first_holding(
            pointer,
            displays,
            from,
        )].holds(pointer),
        forall|k: int|
            from <= k < first_holding(pointer, displays, from) ==> !#[trigger] displays[k].holds(
                pointer,
            ),
    decreases displays.len() - from,
{
    if from < displays.len() && !displays[from].holds(pointer) {
        lemma_first_holding(pointer, displays, from + 1);
    }
}

/// Picks the display under the pointer: the first in the list whose
/// bounds hold it.
pub fn select_display(pointer: Point, displays: &Vec<Display>) -> (found: Option<usize>)
    ensures
        found matches Some(i) ==> i < displays@.len() && displays@[i as int].holds(pointer)
            && forall|k: int| 0 <= k < i ==> !#[trigger] displays@[k].holds(pointer),
        found is None ==> forall|k: int|
            0 <= k < displays@.len() ==> !#[trigger] displays@[k].holds(pointer),
        (match found {
            Some(i) => Some(i as int),
            None => None,
        }) == display_under(pointer, displays@),
{
    proof {
        lemma_first_holding(pointer, displays@, 0);
    }
    let mut i: usize = 0;
    while i < displays.len()
        invariant
            i <= displays@.len(),
            forall|k: int| 0 <= k < i ==> !#[trigger] displays@[k].holds(pointer),
            first_holding(pointer, displays@, 0) == first_holding(pointer, displays@, i as int),
        decreases displays@.len() - i,
    {
        if displays[i].contains(pointer) {
            return Some(i);
        }
        i = i + 1;
    }
    None
}

/// Decides where the window opens: on the display under the pointer if
/// there is one, else centred by the window system. Either way it opens at
/// the base size.
pub fn place(pointer: Point, displays: &Vec<Display>) -> (placement: Placement)
    ensures
        placement == placement_for(pointer, displays@),
{
    match select_display(pointer, displays) {
        Some(i) => Placement::OnDisplay {
            display: displays[i].id,
            bounds: displays[i].bounds_for_panel(),
        },
        None => Placement::Centered { size: Size { width: PANEL_WIDTH, height: BASE_HEIGHT } },
    }
}

/// The panel stands in the middle of its display: the gaps to the
/// display's left and right edge differ by at most one point.
pub proof fn lemma_panel_centered(display: Display)
    ensures
        ({
            let bounds = display.panel_bounds();
            let left_gap = bounds.x - display.x;
            let right_gap = (display.x + display.width) - (bounds.x + bounds.size.width);
            left_gap <= right_gap <= left_gap + 1
        }),
{
}

/// Every placement opens the window at the base size.
pub proof fn lemma_opens_at_base_size(pointer: Point, displays: Seq<Display>)
    ensures
        match placement_for(pointer, displays) {
            Placement::OnDisplay { bounds, .. } => bounds.size == base_size(),
            Placement::Centered { size } => size == base_size(),
        },
{
}

} // verus!
