//! The capability interface every widget implements: draw, update, and
//! event handling.
//!
//! A component owns one cached visual representation that is either stale
//! or fresh with respect to the state it derives from. `update` reconciles
//! (stale to fresh); `draw` replays the cached representation into the
//! display list and changes nothing. A correct driving loop updates every
//! component of the tree before drawing any of them in the same frame;
//! the contracts encode that discipline: `draw` demands `draw_ready`,
//! and `update` establishes it.

use vstd::prelude::*;

use crate::display::{CommandView, DisplayListBuilder};
use crate::shaper::{Shaper, mapping_preserved};
use crate::state::Store;
use crate::widget::WebrenderUpdateContext;

verus! {

/// A tree node that can draw itself, reconcile its cached visual state,
/// and take events. `St` is the store the tree derives from, `S` the
/// shaping collaborator, `RenderData` the frame-scoped addressing handed
/// to every draw call, and `Event` the input event type.
pub trait Component<St: Store, S: Shaper, RenderData, Event>: Sized {
    /// The cached visual state is fresh enough to draw.
    spec fn draw_ready(&self) -> bool;

    /// This component may be updated against `store` (its derived text is
    /// within the layout bounds, its anchors are in range).
    spec fn update_ready(&self, store: &St) -> bool;

    /// Exactly the draw commands one `draw` call appends, in order.
    spec fn draw_commands(&self, rd: &RenderData) -> Seq<CommandView>;

    /// How one `update` call relates the old and the new component and the
    /// old and the new update context; each widget states its own law
    /// here (the dynamic label's is the memoization law).
    spec fn updated(
        &self,
        new: &Self,
        store: &St,
        c0: &WebrenderUpdateContext<S>,
        c1: &WebrenderUpdateContext<S>,
    ) -> bool;

    /// How one `handle_event` call relates the old and the new component.
    spec fn after_event(&self, new: &Self, event: &Event) -> bool;

    /// Replays the cached visual representation: appends exactly
    /// `draw_commands` to the display list and reads no state besides it.
    /// Requires a prior successful `update`.
    fn draw(&self, ctx: &mut DisplayListBuilder, render_data: &RenderData)
        requires
            self.draw_ready(),
        ensures
            final(ctx)@ == old(ctx)@ + self.draw_commands(render_data),
    ;

    /// Reconciles the cached visual state with the store's current state.
    /// Never touches the context's font handles or the shaper's mapping;
    /// shaping work is bounded by each widget's `updated` law.
    fn update(&mut self, ctx: &mut WebrenderUpdateContext<S>, store: &St)
        requires
            old(self).update_ready(store),
        ensures
            final(self).draw_ready(),
            final(self).update_ready(store),
            final(ctx).font == old(ctx).font,
            final(ctx).font_inst == old(ctx).font_inst,
            final(ctx).img == old(ctx).img,
            mapping_preserved(&old(ctx).shaper, &final(ctx).shaper),
            old(self).updated(final(self), store, old(ctx), final(ctx)),
    ;

    /// Delivers one event. A component may change its own fields but must
    /// not draw; any visual consequence waits for the next update/draw
    /// cycle.
    fn handle_event(&mut self, event: Event)
        ensures
            old(self).after_event(final(self), &event),
    ;
}

/// Draws one component into a fresh display list: the frame's command
/// list holds exactly the component's commands. A host then submits the
/// finished list to its renderer.
pub fn build_display_list<St, S, RD, EV, W>(widget: &W, render_data: &RD) -> (r:
    DisplayListBuilder) where St: Store, S: Shaper, W: Component<St, S, RD, EV>
    requires
        widget.draw_ready(),
    ensures
        r@ == widget.draw_commands(render_data),
{
    let mut builder = DisplayListBuilder::new();
    widget.draw(&mut builder, render_data);
    proof {
        assert(Seq::<CommandView>::empty() + widget.draw_commands(render_data) =~= widget.draw_commands(render_data));
    }
    builder
}

} // verus!
