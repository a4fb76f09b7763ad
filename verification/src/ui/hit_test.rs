//! Click-zone hit-testing for mouse support.

use vstd::prelude::*;

use crate::pty::supervisor::PanelId;

verus! {

/// A rectangle of terminal cells.
#[derive(Debug, Clone, Copy, PartialEq, Eq, Structural)]
pub struct Rect {
    pub x: u16,
    pub y: u16,
    pub width: u16,
    pub height: u16,
}

/// Every interactive region in the UI.
#[derive(Debug, Clone, Copy, PartialEq, Eq, Structural)]
pub enum ClickZone {
    ToolbarNewPanel,
    ToolbarHelp,
    ToolbarQuit,
    LeftTabFiles,
    LeftTabHistory,
    PanelFocus(PanelId),
    PanelClose(PanelId),
    PanelScrollUp(PanelId),
    PanelScrollDown(PanelId),
    PanelInputBar(PanelId),
    PanelSendButton(PanelId),
    EmptyNewPanel,
}

/// A registered interactive zone with its screen rect.
#[derive(Debug, Clone, Copy)]
pub struct Zone {
    pub kind: ClickZone,
    pub rect: Rect,
}

impl Zone {
    pub fn new(kind: ClickZone, rect: Rect) -> (z: Self)
        ensures
            z.kind == kind,
            z.rect == rect,
    {
        Zone { kind, rect }
    }
}

/// The containment test of `r` can be evaluated at (x, y): it tests `x`
/// first, then `y`, and each far edge it reaches lies within the coordinate
/// range.
pub open spec fn containment_defined(r: Rect, x: u16, y: u16) -> bool {
    &&& (r.x <= x ==> r.x + r.width <= u16::MAX)
    &&& (r.x <= x < r.x + r.width && r.y <= y ==> r.y + r.height <= u16::MAX)
}

pub open spec fn spec_rect_contains(r: Rect, x: u16, y: u16) -> bool {
    r.x <= x < r.x + r.width && r.y <= y < r.y + r.height
}

pub fn rect_contains(r: Rect, x: u16, y: u16) -> (b: bool)
    requires
        containment_defined(r, x, y),
    ensures
        b == spec_rect_contains(r, x, y),
{
    x >= r.x && x < r.x + r.width && y >= r.y && y < r.y + r.height
}

/// The zone hit at (x, y): the last registered zone containing the point
/// (later zones are drawn on top).
pub open spec fn topmost_hit(zones: Seq<Zone>, x: u16, y: u16) -> Option<ClickZone>
    decreases zones.len(),
{
    if zones.len() == 0 {
        None
    } else if spec_rect_contains(zones.last().rect, x, y) {
        Some(zones.last().kind)
    } else {
        topmost_hit(zones.drop_last(), x, y)
    }
}

/// No zone after position `i` contains the point, so zone `i` is examined.
pub open spec fn examined(zones: Seq<Zone>, i: int, x: u16, y: u16) -> bool {
    forall|j: int| i < j < zones.len() ==> !spec_rect_contains(#[trigger] zones[j].rect, x, y)
}

/// Find the topmost zone that contains the point `(x, y)`.
pub fn hit_test(zones: &[Zone], x: u16, y: u16) -> (r: Option<&ClickZone>)
    requires
        forall|i: int|
            0 <= i < zones@.len() && examined(zones@, i, x, y) ==> containment_defined(
                #[trigger] zones@[i].rect,
                x,
                y,
            ),
    ensures
        match r {
            Some(k) => topmost_hit(zones@, x, y) == Some(*k),
            None => topmost_hit(zones@, x, y) is None,
        },
{
    let mut i = zones.len();
    assert(zones@.take(i as int) =~= zones@);
    while i > 0
        invariant
            i <= zones@.len(),
            forall|k: int|
                0 <= k < zones@.len() && examined(zones@, k, x, y) ==> containment_defined(
                    #[trigger] zones@[k].rect,
                    x,
                    y,
                ),
            examined(zones@, i - 1, x, y),
            topmost_hit(zones@, x, y) == topmost_hit(zones@.take(i as int), x, y),
        decreases i,
    {
        let z = &zones[i - 1];
        assert(zones@.take(i as int).last() == *z);
        assert(zones@.take(i as int).drop_last() =~= zones@.take(i - 1));
        assert(zones@[i - 1] == *z);
        if rect_contains(z.rect, x, y) {
            return Some(&z.kind);
        }
        i = i - 1;
        assert(examined(zones@, i - 1, x, y)) by {
            assert forall|j: int| i - 1 < j < zones@.len() implies !spec_rect_contains(
                #[trigger] zones@[j].rect,
                x,
                y,
            ) by {
                if j > i {
                }
            }
        }
    }
    None
}

/// A rectangle covers exactly the half-open extent `x..x + width` by
/// `y..y + height`: every point of it is inside, and the column just right of
/// it and the row just below it are outside.
pub proof fn law_rect_is_half_open(r: Rect, x: u16, y: u16)
    ensures
        spec_rect_contains(r, x, y) <==> (r.x <= x && x - r.x < r.width && r.y <= y && y - r.y
            < r.height),
        x == r.x + r.width ==> !spec_rect_contains(r, x, y),
        y == r.y + r.height ==> !spec_rect_contains(r, x, y),
        r.width == 0 || r.height == 0 ==> !spec_rect_contains(r, x, y),
{
}

/// A click hits a zone only where that zone's rectangle holds the point, and
/// no zone registered after it holds the point; a click that hits nothing
/// lies outside every zone.
pub proof fn law_hit_is_topmost_containing_zone(zones: Seq<Zone>, x: u16, y: u16)
    ensures
        match topmost_hit(zones, x, y) {
            Some(k) => exists|i: int|
                0 <= i < zones.len() && #[trigger] zones[i].kind == k && zones[i].rect.x <= x
                    && x < zones[i].rect.x + zones[i].rect.width && zones[i].rect.y <= y && y
                    < zones[i].rect.y + zones[i].rect.height && forall|j: int|
                    i < j < zones.len() ==> !(#[trigger] zones[j].rect.x <= x && x
                        < zones[j].rect.x + zones[j].rect.width && zones[j].rect.y <= y && y
                        < zones[j].rect.y + zones[j].rect.height),
            None => forall|j: int|
                0 <= j < zones.len() ==> !(#[trigger] zones[j].rect.x <= x && x < zones[j].rect.x
                    + zones[j].rect.width && zones[j].rect.y <= y && y < zones[j].rect.y
                    + zones[j].rect.height),
        },
    decreases zones.len(),
{
    if zones.len() > 0 {
        let rest = zones.drop_last();
        law_hit_is_topmost_containing_zone(rest, x, y);
        let n = zones.len() - 1;
        if spec_rect_contains(zones.last().rect, x, y) {
            assert(zones[n] == zones.last());
        } else {
            assert forall|j: int| 0 <= j < n implies zones[j] == #[trigger] rest[j] by {}
            match topmost_hit(rest, x, y) {
                Some(k) => {
                    let i = choose|i: int|
                        0 <= i < rest.len() && #[trigger] rest[i].kind == k && rest[i].rect.x <= x
                            && x < rest[i].rect.x + rest[i].rect.width && rest[i].rect.y <= y && y
                            < rest[i].rect.y + rest[i].rect.height && forall|j: int|
                            i < j < rest.len() ==> !(#[trigger] rest[j].rect.x <= x && x
                                < rest[j].rect.x + rest[j].rect.width && rest[j].rect.y <= y && y
                                < rest[j].rect.y + rest[j].rect.height);
                    assert(zones[i] == rest[i]);
                    assert forall|j: int| i < j < zones.len() implies !(#[trigger] zones[j].rect.x
                        <= x && x < zones[j].rect.x + zones[j].rect.width && zones[j].rect.y <= y
                        && y < zones[j].rect.y + zones[j].rect.height) by {
                        if j < n {
                            assert(zones[j] == rest[j]);
                        }
                    }
                },
                None => {
                    assert forall|j: int| 0 <= j < zones.len() implies !(
                    #[trigger] zones[j].rect.x <= x && x < zones[j].rect.x + zones[j].rect.width
                        && zones[j].rect.y <= y && y < zones[j].rect.y + zones[j].rect.height) by {
                        if j < n {
                            assert(zones[j] == rest[j]);
                        }
                    }
                },
            }
        }
    }
}

} // verus!
