use vstd::prelude::*;

verus! {

/// For use with custom cursor control.
/// Event is emitted when the cursor enters a text widget.
pub struct TextHoverIn;

/// For use with custom cursor control.
/// Event is emitted when the cursor leaves a text widget.
pub struct TextHoverOut;

/// The tick-scoped queue of hover events: the detector and the relay write
/// into it during a tick, the reconciler (and any other interested reader)
/// reads it later in the same tick, and the host discards it afterwards.
///
/// The events carry no payload and their order within a tick is irrelevant
/// (consumers only ask for "any leave present" and "any enter present"), so
/// the queue's abstract state is the pair of counts [`HoverEvents::ins`] and
/// [`HoverEvents::outs`].
pub struct HoverEvents {
    hover_in: Vec<TextHoverIn>,
    hover_out: Vec<TextHoverOut>,
}

impl HoverEvents {
    /// How many enter events were queued this tick.
    pub closed spec fn ins(self) -> nat {
        self.hover_in@.len()
    }

    /// How many leave events were queued this tick.
    pub closed spec fn outs(self) -> nat {
        self.hover_out@.len()
    }

    /// An empty queue, made fresh at the start of each tick.
    pub fn new() -> (q: HoverEvents)
        ensures
            q.ins() == 0,
            q.outs() == 0,
    {
        HoverEvents { hover_in: Vec::new(), hover_out: Vec::new() }
    }

    /// Queue one enter event.
    pub fn send_in(&mut self, ev: TextHoverIn)
        ensures
            final(self).ins() == old(self).ins() + 1,
            final(self).outs() == old(self).outs(),
    {
        self.hover_in.push(ev);
    }

    /// Queue one leave event.
    pub fn send_out(&mut self, ev: TextHoverOut)
        ensures
            final(self).outs() == old(self).outs() + 1,
            final(self).ins() == old(self).ins(),
    {
        self.hover_out.push(ev);
    }

    /// How many enter events arrived this tick.
    pub fn ins_len(&self) -> (n: usize)
        ensures
            n == self.ins(),
    {
        self.hover_in.len()
    }

    /// How many leave events arrived this tick.
    pub fn outs_len(&self) -> (n: usize)
        ensures
            n == self.outs(),
    {
        self.hover_out.len()
    }

    /// Whether any enter event arrived this tick.
    pub fn has_hover_in(&self) -> (r: bool)
        ensures
            r == (self.ins() > 0),
    {
        self.hover_in.len() > 0
    }

    /// Whether any leave event arrived this tick.
    pub fn has_hover_out(&self) -> (r: bool)
        ensures
            r == (self.outs() > 0),
    {
        self.hover_out.len() > 0
    }
}

} // verus!
