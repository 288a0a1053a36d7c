//! Splitter logic: a three-child flex box whose middle child is a handle
//! that the user drags to give the whole room to one side or the other.
use vstd::prelude::*;

verus! {

/// Thickness of a splitter handle and of text scrollbars, in pixels.
pub const LINE: i32 = 3;

/// Direction in which a flex box lays out its children.
#[derive(Clone, Copy, Debug, PartialEq, Eq, Structural)]
pub enum Orientation {
    /// Children stacked top to bottom.
    Column,
    /// Children placed left to right.
    Row,
}

/// The events that the library's widget logic tells apart.
#[derive(Clone, Copy, Debug, PartialEq, Eq, Structural)]
pub enum WidgetEvent {
    Push,
    Drag,
    Enter,
    Leave,
    Resize,
    Close,
    /// Any other event.
    Other,
}

/// Mouse cursors that a splitter handle shows.
#[derive(Clone, Copy, Debug, PartialEq, Eq, Structural)]
pub enum Cursor {
    /// Up-down arrows, over the handle of a column.
    NS,
    /// Left-right arrows, over the handle of a row.
    WE,
    /// The ordinary pointer.
    Arrow,
}

/// New fixed sizes for the first and the last child of a splitter.
#[derive(Clone, Copy, Debug, PartialEq, Eq, Structural)]
pub struct Fixed {
    pub first: i32,
    pub last: i32,
}

/// What the handle of a splitter sees when an event reaches it.
#[derive(Clone, Copy, Debug, PartialEq, Eq, Structural)]
pub struct Splitter {
    /// Orientation of the enclosing flex box.
    pub orientation: Orientation,
    /// Margin of the enclosing flex box.
    pub margin: i32,
    /// Width and height of the handle itself.
    pub handle_w: i32,
    pub handle_h: i32,
    /// Width and height of the enclosing flex box.
    pub flex_w: i32,
    pub flex_h: i32,
}

/// What the handle does in answer to an event.
#[derive(Clone, Copy, Debug, PartialEq, Eq, Structural)]
pub struct Reaction {
    /// Whether the event was consumed.
    pub handled: bool,
    /// Cursor to show, if it changes.
    pub cursor: Option<Cursor>,
    /// New sizes of the first and last child, if they change.
    pub fixed: Option<Fixed>,
    /// Whether the application must be redrawn.
    pub redraw: bool,
}

/// What a flex box does in answer to an event.
#[derive(Clone, Copy, Debug, PartialEq, Eq, Structural)]
pub struct Relayout {
    /// Whether the event was consumed.
    pub handled: bool,
    /// New orientation, when the box is a splitter that was resized.
    pub orientation: Option<Orientation>,
    /// New fixed sizes of the three children, when the box is a splitter
    /// that was resized: the handle gets `LINE` and both sides go back to
    /// sharing the room, which undoes earlier drags.
    pub sizes: Option<ChildSizes>,
}

/// Fixed sizes of a splitter's three children: the first side, the handle
/// and the last side.
#[derive(Clone, Copy, Debug, PartialEq, Eq, Structural)]
pub struct ChildSizes {
    pub first: i32,
    pub handle: i32,
    pub last: i32,
}

/// The state of a flex box that a relayout sets: its orientation and the
/// fixed sizes of its three children.
#[derive(Clone, Copy, Debug, PartialEq, Eq, Structural)]
pub struct SplitLayout {
    pub orientation: Orientation,
    pub sizes: ChildSizes,
}

/// Integer halving that rounds toward zero, as `/ 2` does on machine integers.
pub open spec fn half(v: int) -> int {
    if v >= 0 {
        v / 2
    } else {
        -((-v) / 2)
    }
}

/// Extent along the flex box's main axis.
pub open spec fn along(o: Orientation, w: int, h: int) -> int {
    match o {
        Orientation::Column => h,
        Orientation::Row => w,
    }
}

impl Splitter {
    /// Pointer-independent room taken by the margins and the handle.
    pub open spec fn lead(self) -> int {
        2 * self.margin + along(self.orientation, self.handle_w as int, self.handle_h as int)
    }

    pub open spec fn extent(self) -> int {
        along(self.orientation, self.flex_w as int, self.flex_h as int)
    }

    /// The point between the two drag zones.
    pub open spec fn middle(self) -> int {
        half(self.extent() - self.lead())
    }

    /// The pointer lies in the zone that gives the room to the last child.
    /// In a column that zone stops short of the middle; in a row it includes it.
    pub open spec fn in_first_zone(self, p: int) -> bool {
        match self.orientation {
            Orientation::Column => self.lead() <= p < self.middle(),
            Orientation::Row => self.lead() <= p <= self.middle(),
        }
    }

    /// The pointer lies in the zone that gives the room to the first child.
    pub open spec fn in_second_zone(self, p: int) -> bool {
        self.middle() <= p <= self.extent() - self.lead()
    }

    /// Sizes that a drag with the pointer at `p` (along the main axis) sets.
    pub open spec fn drag_sizes(self, p: int) -> Option<(int, int)> {
        if self.in_first_zone(p) {
            Some((0, self.extent() - p))
        } else if self.in_second_zone(p) {
            Some((p, 0))
        } else {
            None
        }
    }

    /// The arithmetic of a drag stays within `i32`.
    pub open spec fn drag_fits(self) -> bool {
        &&& i32::MIN <= 2 * self.margin <= i32::MAX
        &&& i32::MIN <= self.lead() <= i32::MAX
        &&& i32::MIN <= self.extent() - self.lead() <= i32::MAX
    }

    /// Answer of the splitter handle to `event`, the pointer being at
    /// `(x, y)`. A drag in the near half of the box hands the whole room to
    /// the last child; a drag in the far half hands it to the first child.
    pub fn listen(&self, event: WidgetEvent, x: i32, y: i32) -> (r: Reaction)
        requires
            event == WidgetEvent::Drag ==> self.drag_fits(),
        ensures
            r.handled == (event == WidgetEvent::Push || event == WidgetEvent::Drag
                || event == WidgetEvent::Enter || event == WidgetEvent::Leave),
            r.redraw == (event == WidgetEvent::Drag),
            r.cursor == (match event {
                WidgetEvent::Enter => Some(
                    match self.orientation {
                        Orientation::Column => Cursor::NS,
                        Orientation::Row => Cursor::WE,
                    },
                ),
                WidgetEvent::Leave => Some(Cursor::Arrow),
                _ => None::<Cursor>,
            }),
            event != WidgetEvent::Drag ==> r.fixed is None,
            event == WidgetEvent::Drag ==> match self.drag_sizes(
                along(self.orientation, x as int, y as int),
            ) {
                Some(s) => r.fixed matches Some(f) && f.first == s.0 && f.last == s.1,
                None => r.fixed is None,
            },
    {
        match event {
            WidgetEvent::Push => Reaction { handled: true, cursor: None, fixed: None, redraw: false },
            WidgetEvent::Drag => {
                let fixed = self.drag(x, y);
                Reaction { handled: true, cursor: None, fixed, redraw: true }
            },
            WidgetEvent::Enter => {
                let cursor = match self.orientation {
                    Orientation::Column => Cursor::NS,
                    Orientation::Row => Cursor::WE,
                };
                Reaction { handled: true, cursor: Some(cursor), fixed: None, redraw: false }
            },
            WidgetEvent::Leave => Reaction {
                handled: true,
                cursor: Some(Cursor::Arrow),
                fixed: None,
                redraw: false,
            },
            _ => Reaction { handled: false, cursor: None, fixed: None, redraw: false },
        }
    }

    /// New child sizes for a drag with the pointer at `(x, y)`, if the
    /// pointer lies in one of the two drag zones.
    pub fn drag(&self, x: i32, y: i32) -> (r: Option<Fixed>)
        requires
            self.drag_fits(),
        ensures
            match self.drag_sizes(along(self.orientation, x as int, y as int)) {
                Some(s) => r matches Some(f) && f.first == s.0 && f.last == s.1,
                None => r is None,
            },
    {
        let (handle, extent, p) = match self.orientation {
            Orientation::Column => (self.handle_h, self.flex_h, y),
            Orientation::Row => (self.handle_w, self.flex_w, x),
        };
        let lead: i32 = self.margin * 2 + handle;
        let room: i32 = extent - lead;
        let middle: i32 = room / 2;
        let first_zone = match self.orientation {
            Orientation::Column => lead <= p && p < middle,
            Orientation::Row => lead <= p && p <= middle,
        };
        if first_zone {
            assert(extent - p <= room);
            Some(Fixed { first: 0, last: extent - p })
        } else if middle <= p && p <= room {
            Some(Fixed { first: p, last: 0 })
        } else {
            None
        }
    }
}

/// Halving rounds toward zero: for a non-negative `v` it is the largest
/// number whose double does not exceed `v`, for a negative `v` the smallest
/// whose double is not below `v`.
pub proof fn half_rounds_toward_zero(v: int)
    ensures
        v >= 0 ==> 2 * half(v) <= v < 2 * half(v) + 2,
        v < 0 ==> 2 * half(v) - 2 < v <= 2 * half(v),
{
}

/// In a column, a drag from the margins and the handle (`2 * margin +
/// handle_h`) up to, but not including, the middle of the rest of the box
/// gives the last child all the room below the pointer, `flex_h - y`, and
/// the first child nothing.
pub proof fn column_near_drag(s: Splitter, y: int)
    requires
        s.orientation == Orientation::Column,
        2 * s.margin + s.handle_h <= y < half(s.flex_h - 2 * s.margin - s.handle_h),
    ensures
        s.drag_sizes(y) == Some((0int, s.flex_h - y)),
{
}

/// In a column, a drag from the middle of the box less the margins and the
/// handle, up to its far end less them, gives the first child the room
/// above the pointer, `y`, and the last child nothing.
pub proof fn column_far_drag(s: Splitter, y: int)
    requires
        s.orientation == Orientation::Column,
        half(s.flex_h - 2 * s.margin - s.handle_h) <= y <= s.flex_h - 2 * s.margin - s.handle_h,
    ensures
        s.drag_sizes(y) == Some((y, 0int)),
{
}

/// In a row, a drag from the margins and the handle (`2 * margin +
/// handle_w`) up to the middle of the rest of the box, the middle included,
/// gives the last child all the room right of the pointer, `flex_w - x`.
pub proof fn row_near_drag(s: Splitter, x: int)
    requires
        s.orientation == Orientation::Row,
        2 * s.margin + s.handle_w <= x <= half(s.flex_w - 2 * s.margin - s.handle_w),
    ensures
        s.drag_sizes(x) == Some((0int, s.flex_w - x)),
{
}

/// In a row, a drag past the middle, up to the far end less the margins and
/// the handle, gives the first child the room left of the pointer, `x`.
pub proof fn row_far_drag(s: Splitter, x: int)
    requires
        s.orientation == Orientation::Row,
        !(2 * s.margin + s.handle_w <= x <= half(s.flex_w - 2 * s.margin - s.handle_w)),
        half(s.flex_w - 2 * s.margin - s.handle_w) <= x <= s.flex_w - 2 * s.margin - s.handle_w,
    ensures
        s.drag_sizes(x) == Some((x, 0int)),
{
}

/// A drag hands the room to one side only: whenever it resizes the
/// children, the first or the last one gets the size 0.
pub proof fn drag_favours_one_side(s: Splitter, p: int)
    ensures
        s.drag_sizes(p) matches Some(z) ==> z.0 == 0 || z.1 == 0,
{
}

/// Every pointer position from the lead (margins and handle) up to the far
/// end less the lead lies in a drag zone, so a drag there resizes.
pub proof fn drag_zones_cover(s: Splitter, p: int)
    requires
        s.lead() <= p <= s.extent() - s.lead(),
    ensures
        s.drag_sizes(p) is Some,
{
}

/// In a box with room for its margins and handle, a drag beyond the far
/// end less the lead, or before both the lead and the middle, leaves the
/// children as they are.
pub proof fn drag_outside_zones_ignored(s: Splitter, p: int)
    requires
        s.extent() - s.lead() >= 0,
        p > s.extent() - s.lead() || (p < s.lead() && p < s.middle()),
    ensures
        s.drag_sizes(p) is None,
{
}

/// Answer of a flex box to `event` when it has `children` children and
/// the size `w` by `h`.
pub open spec fn relayout_spec(event: WidgetEvent, children: i32, w: i32, h: i32) -> Relayout {
    if event == WidgetEvent::Resize && children == 3 {
        Relayout {
            handled: true,
            orientation: Some(if w < h { Orientation::Column } else { Orientation::Row }),
            sizes: Some(ChildSizes { first: 0, handle: LINE, last: 0 }),
        }
    } else {
        Relayout { handled: event == WidgetEvent::Resize, orientation: None, sizes: None }
    }
}

/// The layout of a flex box once `answer` was carried out on it.
pub open spec fn after_relayout(layout: SplitLayout, answer: Relayout) -> SplitLayout {
    SplitLayout {
        orientation: match answer.orientation {
            Some(o) => o,
            None => layout.orientation,
        },
        sizes: match answer.sizes {
            Some(z) => z,
            None => layout.sizes,
        },
    }
}

/// Answer of a flex box to `event` when it has `children` children and
/// the size `w` by `h`. A resized splitter (three children) lays itself out
/// along its longer side, fixes its handle at `LINE` and its two sides at 0,
/// so that they share the room again.
pub fn relayout(event: WidgetEvent, children: i32, w: i32, h: i32) -> (r: Relayout)
    ensures
        r == relayout_spec(event, children, w, h),
        r.handled == (event == WidgetEvent::Resize),
        r.orientation == (if event == WidgetEvent::Resize && children == 3 {
            Some(if w < h { Orientation::Column } else { Orientation::Row })
        } else {
            None::<Orientation>
        }),
        r.sizes == (if r.orientation is Some {
            Some(ChildSizes { first: 0, handle: LINE, last: 0 })
        } else {
            None::<ChildSizes>
        }),
{
    if event == WidgetEvent::Resize {
        if children == 3 {
            let o = if w < h { Orientation::Column } else { Orientation::Row };
            return Relayout { handled: true, orientation: Some(o), sizes: Some(ChildSizes { first: 0, handle: LINE, last: 0 }) };
        }
        return Relayout { handled: true, orientation: None, sizes: None };
    }
    Relayout { handled: false, orientation: None, sizes: None }
}

/// Resizing a splitter twice without changing its size leaves it as
/// resizing it once does, and both resizes are consumed: the answer depends
/// on the box's size and child count alone, never on its current layout.
pub proof fn relayout_is_idempotent(layout: SplitLayout, children: i32, w: i32, h: i32)
    ensures
        ({
            let a = relayout_spec(WidgetEvent::Resize, children, w, h);
            &&& after_relayout(after_relayout(layout, a), a) == after_relayout(layout, a)
            &&& a.handled
        }),
{
}

/// A resized splitter forgets earlier drags: whatever sizes its children
/// had, they are 0, `LINE` and 0 afterwards.
pub proof fn relayout_resets_drags(layout: SplitLayout, w: i32, h: i32)
    ensures
        after_relayout(layout, relayout_spec(WidgetEvent::Resize, 3, w, h)).sizes == (ChildSizes {
            first: 0,
            handle: LINE,
            last: 0,
        }),
{
}

} // verus!
