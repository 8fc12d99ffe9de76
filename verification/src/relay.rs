use vstd::prelude::*;
use crate::events::HoverEvents;
use crate::events::TextHoverIn;
use crate::events::TextHoverOut;

verus! {

/// The pointer-interaction state of a UI-rendered text widget, as computed
/// by the host's interaction layer. `Idle` is the state of a widget the
/// pointer is not interacting with at all.
#[derive(Clone, Copy, Debug, PartialEq, Eq, Structural)]
pub enum UiInteraction {
    Idle,
    Hovered,
    Pressed,
}

/// One UI widget whose interaction state changed this tick: the new state
/// and the id of the underlying text-widget entity the UI node points at.
#[derive(Clone, Copy, Debug)]
pub struct UiWidgetChange {
    pub interaction: UiInteraction,
    pub source: u64,
}

/// Whether a change makes the relay queue a `TextHoverIn`: the widget became
/// hovered and its source really is a text widget — a stale or foreign
/// interaction source produces nothing.
pub open spec fn spec_emits_in(c: UiWidgetChange, text_widgets: Seq<u64>) -> bool {
    c.interaction is Hovered && text_widgets.contains(c.source)
}

/// Whether a change makes the relay queue a `TextHoverOut`: the widget fell
/// back to no interaction at all.
pub open spec fn spec_emits_out(c: UiWidgetChange) -> bool {
    c.interaction is Idle
}

/// How many enter events a tick's changes produce.
pub open spec fn spec_relay_ins(cs: Seq<UiWidgetChange>, text_widgets: Seq<u64>) -> nat
    decreases cs.len(),
{
    if cs.len() == 0 {
        0
    } else {
        spec_relay_ins(cs.drop_last(), text_widgets) + (if spec_emits_in(cs.last(), text_widgets) {
            1nat
        } else {
            0nat
        })
    }
}

/// How many leave events a tick's changes produce.
pub open spec fn spec_relay_outs(cs: Seq<UiWidgetChange>) -> nat
    decreases cs.len(),
{
    if cs.len() == 0 {
        0
    } else {
        spec_relay_outs(cs.drop_last()) + (if spec_emits_out(cs.last()) {
            1nat
        } else {
            0nat
        })
    }
}

/// Membership test standing for the host's lookup of the source entity in
/// the set of text widgets.
pub fn text_widget_exists(text_widgets: &Vec<u64>, id: u64) -> (r: bool)
    ensures
        r == text_widgets@.contains(id),
{
    let mut i: usize = 0;
    while i < text_widgets.len()
        invariant
            0 <= i <= text_widgets@.len(),
            forall|j: int| 0 <= j < i ==> text_widgets@[j] != id,
        decreases text_widgets@.len() - i,
    {
        if text_widgets[i] == id {
            return true;
        }
        i = i + 1;
    }
    false
}

/// One tick of the UI hover relay. Purely reactive: for each widget whose
/// interaction changed this tick, `Idle` queues a `TextHoverOut`
/// unconditionally, `Hovered` queues a `TextHoverIn` only when the source
/// entity is a text widget, and any other state queues nothing. Each change
/// is handled independently, so one tick may queue several events.
pub fn hover_ui(
    changes: &Vec<UiWidgetChange>,
    text_widgets: &Vec<u64>,
    events: &mut HoverEvents,
)
    ensures
        final(events).ins() == old(events).ins() + spec_relay_ins(changes@, text_widgets@),
        final(events).outs() == old(events).outs() + spec_relay_outs(changes@),
{
    let mut i: usize = 0;
    while i < changes.len()
        invariant
            0 <= i <= changes@.len(),
            events.ins() == old(events).ins() + spec_relay_ins(
                changes@.take(i as int),
                text_widgets@,
            ),
            events.outs() == old(events).outs() + spec_relay_outs(changes@.take(i as int)),
        decreases changes@.len() - i,
    {
        let c = changes[i];
        match c.interaction {
            UiInteraction::Idle => {
                events.send_out(TextHoverOut);
            },
            UiInteraction::Hovered => {
                if text_widget_exists(text_widgets, c.source) {
                    events.send_in(TextHoverIn);
                }
            },
            UiInteraction::Pressed => {},
        }
        proof {
            assert(changes@.take(i as int + 1).drop_last() =~= changes@.take(i as int));
            assert(changes@.take(i as int + 1).last() == changes@[i as int]);
        }
        i = i + 1;
    }
    proof {
        assert(changes@.take(changes@.len() as int) =~= changes@);
    }
}

} // verus!
