use vstd::prelude::*;
use crate::detector::SpriteHoverDetector;
use crate::detector::spec_emits;
use crate::events::HoverEvents;
use crate::geometry::WidgetGeometry;
use crate::geometry::WorldPoint;
use crate::geometry::spec_any_hit;
use crate::reconciler::DisplaySurface;
use crate::reconciler::InputActivity;
use crate::reconciler::change_cursor;
use crate::reconciler::spec_new_marker;
use crate::reconciler::spec_new_visible;
use crate::relay::UiWidgetChange;
use crate::relay::hover_ui;
use crate::relay::spec_relay_ins;
use crate::relay::spec_relay_outs;

verus! {

/// Label under which a host schedules the cursor stages in its update
/// cycle.
#[derive(Debug, Clone, PartialEq, Eq, Hash)]
pub struct CursorSet;

/// Opt-out switch: when the host passes this marker to
/// [`CursorPlugin::tick`], the whole tick is a no-op — every tick it keeps
/// passing it, an external caller owns cursor control instead.
#[derive(Clone, Copy, Debug)]
pub struct CursorPluginDisabled;

/// How many enter events the detector stage of a tick queues.
pub open spec fn spec_detector_ins(run: bool, prev: bool, cur: bool) -> nat {
    if run && spec_emits(prev, cur) && cur {
        1nat
    } else {
        0nat
    }
}

/// How many leave events the detector stage of a tick queues.
pub open spec fn spec_detector_outs(run: bool, prev: bool, cur: bool) -> nat {
    if run && spec_emits(prev, cur) && !cur {
        1nat
    } else {
        0nat
    }
}

/// Detector guarantee: one tick of the detector queues at most one event in
/// all — exactly one when the hover boolean changed and the hit test ran,
/// none when the state is unchanged, the widget set is empty, or a
/// prerequisite (surface, camera) is missing.
pub proof fn lemma_detector_at_most_one_event(run: bool, prev: bool, cur: bool)
    ensures
        spec_detector_ins(run, prev, cur) + spec_detector_outs(run, prev, cur) == (
        if run && spec_emits(prev, cur) {
            1nat
        } else {
            0nat
        }),
{
}

/// The scheduler of the three cursor stages. It owns the only state that
/// survives a tick, the sprite-hover detector's remembered boolean.
pub struct CursorPlugin {
    pub detector: SpriteHoverDetector,
}

impl CursorPlugin {
    /// A fresh plugin whose detector starts out not hovering.
    pub fn new() -> (p: CursorPlugin)
        ensures
            !p.detector.previous,
    {
        CursorPlugin { detector: SpriteHoverDetector::new() }
    }

    /// One tick of the whole subsystem, the stages chained in their fixed
    /// order: sprite-hover detection, then the UI relay, then — with both
    /// producers' events visible — cursor-state reconciliation. Returns the
    /// tick's event queue so other systems may consume the same events.
    ///
    /// With the opt-out marker passed, nothing runs and nothing changes.
    /// Otherwise the ensures restates the composition of the three stage
    /// contracts: the detector's remembered boolean, the event counts, and
    /// the surface's new marker and visibility flag.
    pub fn tick(
        &mut self,
        disabled: Option<CursorPluginDisabled>,
        camera_present: bool,
        pointer: &Option<WorldPoint>,
        widgets: &Vec<WidgetGeometry>,
        ui_changes: &Vec<UiWidgetChange>,
        text_widgets: &Vec<u64>,
        input: &InputActivity,
        surface: &mut Option<DisplaySurface>,
    ) -> (events: HoverEvents)
        ensures
            disabled is Some ==> {
                &&& final(self).detector.previous == old(self).detector.previous
                &&& *final(surface) == *old(surface)
                &&& events.ins() == 0
                &&& events.outs() == 0
            },
            disabled is None ==> ({
                let run = (*old(surface)) is Some && camera_present;
                let cur = spec_any_hit(widgets@, *pointer);
                let prev = old(self).detector.previous;
                let total_ins = spec_detector_ins(run, prev, cur) + spec_relay_ins(
                    ui_changes@,
                    text_widgets@,
                );
                let total_outs = spec_detector_outs(run, prev, cur) + spec_relay_outs(ui_changes@);
                &&& final(self).detector.previous == (if run {
                    cur
                } else {
                    prev
                })
                &&& events.ins() == total_ins
                &&& events.outs() == total_outs
                &&& (match (*old(surface), *final(surface)) {
                    (Some(s), Some(t)) => {
                        &&& t.marker == spec_new_marker(s.marker, total_ins > 0, total_outs > 0)
                        &&& t.cursor_visible == spec_new_visible(
                            s.cursor_visible,
                            input.text_changed,
                            input.mouse_motion || input.mouse_button_pressed,
                        )
                    },
                    (Some(_), None) => false,
                    (None, r) => r is None,
                })
            }),
    {
        let mut events = HoverEvents::new();
        if disabled.is_some() {
            return events;
        }
        let surface_present = surface.is_some();
        self.detector.hover_sprites(surface_present, camera_present, pointer, widgets, &mut events);
        hover_ui(ui_changes, text_widgets, &mut events);
        change_cursor(surface, &events, input);
        events
    }
}

} // verus!
