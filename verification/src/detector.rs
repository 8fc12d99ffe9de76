use vstd::prelude::*;
use crate::events::HoverEvents;
use crate::events::TextHoverIn;
use crate::events::TextHoverOut;
use crate::geometry::WidgetGeometry;
use crate::geometry::WorldPoint;
use crate::geometry::any_widget_hit;
use crate::geometry::spec_any_hit;

verus! {

/// Debounce rule: a tick emits an event exactly when the tick's hover
/// boolean differs from the previous tick's.
pub open spec fn spec_emits(prev: bool, cur: bool) -> bool {
    cur != prev
}

/// Hit-tests the pointer against every world-space text widget once per
/// tick, remembers the result across ticks, and emits `TextHoverIn` /
/// `TextHoverOut` on each transition — at most one event per tick.
pub struct SpriteHoverDetector {
    /// The previous tick's hover boolean; the tick-local current value is
    /// compared against it and then stored here.
    pub previous: bool,
}

impl SpriteHoverDetector {
    /// A fresh detector; before any tick the pointer counts as not hovering.
    pub fn new() -> (d: SpriteHoverDetector)
        ensures
            !d.previous,
    {
        SpriteHoverDetector { previous: false }
    }

    /// One tick of hover detection.
    ///
    /// When the primary display surface or the active camera is missing, no
    /// hit test runs: the remembered state and the queue stay as they are,
    /// so a transiently missing prerequisite never forces a spurious leave
    /// event. Otherwise the tick's hover boolean is the OR over all widget
    /// hit tests (`false` when the pointer is absent or its projection
    /// failed), an event is queued exactly on a transition — `TextHoverIn`
    /// when hovering began, `TextHoverOut` when it ended — and the boolean
    /// is remembered for the next tick.
    pub fn hover_sprites(
        &mut self,
        surface_present: bool,
        camera_present: bool,
        pointer: &Option<WorldPoint>,
        widgets: &Vec<WidgetGeometry>,
        events: &mut HoverEvents,
    )
        ensures
            !(surface_present && camera_present) ==> {
                &&& final(self).previous == old(self).previous
                &&& final(events).ins() == old(events).ins()
                &&& final(events).outs() == old(events).outs()
            },
            (surface_present && camera_present) ==> {
                let cur = spec_any_hit(widgets@, *pointer);
                &&& final(self).previous == cur
                &&& final(events).ins() == old(events).ins() + (if spec_emits(
                    old(self).previous,
                    cur,
                ) && cur {
                    1int
                } else {
                    0int
                })
                &&& final(events).outs() == old(events).outs() + (if spec_emits(
                    old(self).previous,
                    cur,
                ) && !cur {
                    1int
                } else {
                    0int
                })
            },
    {
        if !(surface_present && camera_present) {
            return ;
        }
        let hovered = any_widget_hit(widgets, pointer);
        if self.previous != hovered {
            if hovered {
                events.send_in(TextHoverIn);
            } else {
                events.send_out(TextHoverOut);
            }
        }
        self.previous = hovered;
    }
}

/// How many events a run of ticks emits: given the remembered boolean and
/// the hover booleans of the following ticks, one event for each tick whose
/// boolean differs from its predecessor's (the rule [`spec_emits`] that the
/// ensures of [`SpriteHoverDetector::hover_sprites`] applies each tick).
pub open spec fn spec_run_event_count(prev: bool, samples: Seq<bool>) -> nat
    decreases samples.len(),
{
    if samples.len() == 0 {
        0
    } else {
        (if spec_emits(prev, samples[0]) {
            1nat
        } else {
            0nat
        }) + spec_run_event_count(samples[0], samples.skip(1))
    }
}

/// Debounce law: a run of ticks whose hover booleans are all the same value
/// emits exactly one event when that value differs from the remembered
/// boolean — at the first tick, the transition — and no event at all when it
/// does not.
pub proof fn lemma_debounce_constant_run(prev: bool, samples: Seq<bool>, b: bool)
    requires
        forall|i: int| 0 <= i < samples.len() ==> samples[i] == b,
    ensures
        spec_run_event_count(prev, samples) == if samples.len() > 0 && spec_emits(prev, b) {
            1nat
        } else {
            0nat
        },
    decreases samples.len(),
{
    if samples.len() > 0 {
        assert forall|i: int| 0 <= i < samples.skip(1).len() implies samples.skip(1)[i] == b by {
            assert(samples.skip(1)[i] == samples[i + 1]);
        }
        lemma_debounce_constant_run(b, samples.skip(1), b);
    }
}

} // verus!
