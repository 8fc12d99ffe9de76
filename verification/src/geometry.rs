use vstd::prelude::*;

verus! {

/// A point in world coordinates. The host projects the pointer's
/// surface-local position through the active camera before handing it to the
/// detector, rounding to whole world units.
#[derive(Clone, Copy, Debug)]
pub struct WorldPoint {
    pub x: i64,
    pub y: i64,
}

/// The hit geometry of one world-space (sprite-rendered) text widget: its
/// world-transform translation, the half-extent of its bounding box on each
/// axis, and its visibility flag.
#[derive(Clone, Copy, Debug)]
pub struct WidgetGeometry {
    pub center_x: i64,
    pub center_y: i64,
    pub half_width: i64,
    pub half_height: i64,
    pub visible: bool,
}

/// A visible widget is hit when the point lies strictly inside
/// `(center - half, center + half)` on both axes: a point exactly on an edge
/// does not count, and a hidden widget is never hit.
pub open spec fn spec_hit(g: WidgetGeometry, p: WorldPoint) -> bool {
    &&& g.visible
    &&& g.center_x - g.half_width < p.x
    &&& p.x < g.center_x + g.half_width
    &&& g.center_y - g.half_height < p.y
    &&& p.y < g.center_y + g.half_height
}

/// Whether the pointer hits any widget of the set. A missing pointer (no
/// cursor on the surface, or a failed camera projection) hits nothing.
pub open spec fn spec_any_hit(ws: Seq<WidgetGeometry>, pointer: Option<WorldPoint>) -> bool {
    match pointer {
        Some(p) => exists|i: int| 0 <= i < ws.len() && spec_hit(ws[i], p),
        None => false,
    }
}

/// Strict-inequality hit test of one widget. The comparisons are taken in a
/// wider integer type, so no bound on the geometry is needed.
pub fn widget_hit(g: &WidgetGeometry, p: &WorldPoint) -> (r: bool)
    ensures
        r == spec_hit(*g, *p),
{
    if !g.visible {
        return false;
    }
    let cx: i128 = g.center_x as i128;
    let cy: i128 = g.center_y as i128;
    let hw: i128 = g.half_width as i128;
    let hh: i128 = g.half_height as i128;
    let px: i128 = p.x as i128;
    let py: i128 = p.y as i128;
    cx - hw < px && px < cx + hw && cy - hh < py && py < cy + hh
}

/// Hit test of the whole widget set, the OR over every widget.
pub fn any_widget_hit(widgets: &Vec<WidgetGeometry>, pointer: &Option<WorldPoint>) -> (r: bool)
    ensures
        r == spec_any_hit(widgets@, *pointer),
{
    match pointer {
        None => false,
        Some(p) => {
            let mut hit = false;
            let mut i: usize = 0;
            while i < widgets.len()
                invariant
                    0 <= i <= widgets@.len(),
                    hit == (exists|j: int| 0 <= j < i && spec_hit(widgets@[j], *p)),
                decreases widgets@.len() - i,
            {
                if widget_hit(&widgets[i], p) {
                    hit = true;
                }
                i = i + 1;
            }
            hit
        }
    }
}

/// Boundary law: a point exactly on any edge of a widget's bounding box is
/// not a hit — the hit test is strict on both axes.
pub proof fn lemma_boundary_not_hit(g: WidgetGeometry, p: WorldPoint)
    requires
        p.x == g.center_x + g.half_width || p.x == g.center_x - g.half_width || p.y == g.center_y
            + g.half_height || p.y == g.center_y - g.half_height,
    ensures
        !spec_hit(g, p),
{
}

} // verus!
