use vstd::prelude::*;
use crate::events::HoverEvents;

verus! {

/// A system cursor icon the host can render. The reconciler itself only
/// ever attaches [`CursorIconKind::Text`]; the other variants are vocabulary
/// for hosts that render their own cursors over the same marker.
#[derive(Clone, Copy, Debug, PartialEq, Eq, Structural)]
pub enum CursorIconKind {
    Text,
    Pointer,
    Crosshair,
}

/// The custom-cursor marker attached to the display surface while the
/// pointer is over a text widget.
#[derive(Clone, Copy, Debug, PartialEq, Eq, Structural)]
pub struct CursorMarker {
    pub icon: CursorIconKind,
}

impl CursorMarker {
    /// The well-defined marker the reconciler attaches: the text-selection
    /// (I-beam) icon.
    pub open spec fn spec_default() -> CursorMarker {
        CursorMarker { icon: CursorIconKind::Text }
    }
}

impl Default for CursorMarker {
    fn default() -> (m: CursorMarker)
        ensures
            m == CursorMarker::spec_default(),
    {
        CursorMarker { icon: CursorIconKind::Text }
    }
}

/// The primary display surface's cursor state: whether a custom-cursor
/// marker is attached, and whether the system pointer is visible. Only the
/// reconciler mutates it.
#[derive(Clone, Copy, Debug, PartialEq, Eq, Structural)]
pub struct DisplaySurface {
    pub marker: Option<CursorMarker>,
    pub cursor_visible: bool,
}

/// The raw input activity of one tick, read-only to the reconciler: whether
/// any text content changed, whether any mouse-motion event arrived, and
/// whether any mouse button was freshly pressed.
#[derive(Clone, Copy, Debug)]
pub struct InputActivity {
    pub text_changed: bool,
    pub mouse_motion: bool,
    pub mouse_button_pressed: bool,
}

/// The marker after one tick. An enter event attaches the default marker
/// only when none is attached (attaching over an attached marker keeps it);
/// otherwise a leave event removes whatever is attached (removing an absent
/// marker stays a no-op); otherwise the marker is untouched.
pub open spec fn spec_new_marker(
    m: Option<CursorMarker>,
    has_in: bool,
    has_out: bool,
) -> Option<CursorMarker> {
    if has_in {
        if m is None {
            Some(CursorMarker::spec_default())
        } else {
            m
        }
    } else if has_out {
        None
    } else {
        m
    }
}

/// The visibility flag after one tick. Pointer activity (motion or a fresh
/// button press) reveals the pointer; failing that, a content change hides
/// it; failing both, the flag is untouched. Pointer activity is evaluated
/// last and therefore wins over a content change in the same tick.
pub open spec fn spec_new_visible(visible: bool, text_changed: bool, pointer_activity: bool) -> bool {
    if pointer_activity {
        true
    } else if text_changed {
        false
    } else {
        visible
    }
}

/// One tick of cursor-state reconciliation. With no display surface nothing
/// is mutated; otherwise the marker follows [`spec_new_marker`] over the
/// tick's hover events and the visibility flag follows [`spec_new_visible`]
/// over the tick's raw input. Missing surface, missing events and missing
/// input are all normal, silent no-ops, never errors.
pub fn change_cursor(surface: &mut Option<DisplaySurface>, events: &HoverEvents, input: &InputActivity)
    ensures
        (*old(surface)) is None ==> (*final(surface)) is None,
        (match (*old(surface), *final(surface)) {
            (Some(s), Some(t)) => {
                &&& t.marker == spec_new_marker(s.marker, events.ins() > 0, events.outs() > 0)
                &&& t.cursor_visible == spec_new_visible(
                    s.cursor_visible,
                    input.text_changed,
                    input.mouse_motion || input.mouse_button_pressed,
                )
            },
            (Some(_), None) => false,
            (None, _) => true,
        }),
{
    match surface {
        None => {},
        Some(s) => {
            if events.has_hover_in() {
                if s.marker.is_none() {
                    s.marker = Some(CursorMarker::default());
                }
            } else if events.has_hover_out() {
                s.marker = None;
            }
            if input.text_changed {
                s.cursor_visible = false;
            }
            if input.mouse_motion || input.mouse_button_pressed {
                s.cursor_visible = true;
            }
        },
    }
}

/// Idempotence law, attach half: an enter event with a marker already
/// attached keeps that very marker — attaching is a no-op when attached.
pub proof fn lemma_attach_idempotent(m: CursorMarker, has_out: bool)
    ensures
        spec_new_marker(Some(m), true, has_out) == Some(m),
{
}

/// Idempotence law, remove half: a leave event with no marker attached
/// leaves none attached — removing is a no-op when absent.
pub proof fn lemma_remove_idempotent()
    ensures
        spec_new_marker(None, false, true) is None,
{
}

/// Precedence law: when a content-change event and pointer activity (motion
/// or a fresh button press) fall in the same tick, the tick ends with the
/// pointer visible — pointer activity wins.
pub proof fn lemma_pointer_activity_wins(visible: bool)
    ensures
        spec_new_visible(visible, true, true),
{
}

} // verus!
