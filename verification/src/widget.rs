//! The widget set: rectangles, labels, and structural composition.
//!
//! Every widget implements [`Component`] against the crate's display-list
//! builder and update context. `Rect` and `StaticLabel` are fully
//! materialized at construction; `DynamicLabel` re-derives its text from a
//! store selector on every update and re-runs layout only when the text
//! actually changed.

use vstd::prelude::*;

use crate::component::Component;
use crate::display::{CommandView, CommonItemProperties, DisplayListBuilder, HitTag};
use crate::geometry::{Color, LayoutPoint, LayoutRect};
use crate::shaper::{FontInstanceKey, FontKey, ImageKey, Shaper, mapping_preserved};
use crate::state::{Projection, Selector, Store};
use crate::text::{
    GlyphInstance, LayoutedText, MAX_TEXT_LEN, chars_eq, layout_model, position_glyphs,
    positioned_glyphs,
};

verus! {

broadcast use vstd::std_specs::vec::axiom_vec_decreases_to_view, vstd::seq::axiom_seq_index_decreases, vstd::seq::axiom_seq_subrange_decreases;

/// Frame-scoped addressing handed to every draw call.
#[derive(Clone, Copy, PartialEq, Eq, Structural, Debug)]
pub struct WebrenderRenderData {
    pub space_clip: crate::display::SpaceAndClipInfo,
}

impl WebrenderRenderData {
    pub fn new(space_clip: crate::display::SpaceAndClipInfo) -> (r: WebrenderRenderData)
        ensures
            r == (WebrenderRenderData { space_clip }),
    {
        WebrenderRenderData { space_clip }
    }
}

/// The update context: the shaping collaborator plus the font, font
/// instance and image handles the current frame works with.
pub struct WebrenderUpdateContext<S: Shaper> {
    pub shaper: S,
    pub font: FontKey,
    pub font_inst: FontInstanceKey,
    pub img: ImageKey,
}

impl<S: Shaper> WebrenderUpdateContext<S> {
    pub fn new(shaper: S, font: FontKey, font_inst: FontInstanceKey, img: ImageKey) -> (r:
        WebrenderUpdateContext<S>)
        ensures
            r == (WebrenderUpdateContext { shaper, font, font_inst, img }),
    {
        WebrenderUpdateContext { shaper, font, font_inst, img }
    }
}

/// Input events a widget can take. No meaningful variants exist yet; the
/// placeholder variant reserves the channel for future interactive
/// widgets, and every widget ignores it.
#[derive(Clone, Copy, PartialEq, Eq, Structural, Debug)]
pub enum WebrenderEvent {
    Reserved,
}

/// A static filled rectangle.
#[derive(Clone, Copy, PartialEq, Eq, Structural, Debug)]
pub struct Rect {
    pub area: LayoutRect,
    pub color: Color,
}

/// The one rectangle command a [`Rect`] draws.
pub open spec fn rect_command(x: Rect, rd: &WebrenderRenderData) -> CommandView {
    CommandView::Rect { area: x.area, space_clip: rd.space_clip, color: x.color }
}

impl Rect {
    pub fn new(area: LayoutRect, color: Color) -> (r: Rect)
        ensures
            r == (Rect { area, color }),
    {
        Rect { area, color }
    }

    /// Appends this rectangle's single draw command.
    pub fn draw(&self, ctx: &mut DisplayListBuilder, rd: &WebrenderRenderData)
        ensures
            final(ctx)@ == old(ctx)@ + seq![rect_command(*self, rd)],
    {
        let info = CommonItemProperties::new(self.area, rd.space_clip);
        ctx.push_rect(&info, self.color);
    }
}

impl<St: Store, S: Shaper> Component<St, S, WebrenderRenderData, WebrenderEvent> for Rect {
    /// A rectangle is always ready: it has no derived state.
    open spec fn draw_ready(&self) -> bool {
        true
    }

    open spec fn update_ready(&self, store: &St) -> bool {
        true
    }

    /// Exactly one filled rectangle with this widget's bounds and color.
    open spec fn draw_commands(&self, rd: &WebrenderRenderData) -> Seq<CommandView> {
        seq![rect_command(*self, rd)]
    }

    /// Updating a rectangle is a no-op: no state change, no side effect.
    open spec fn updated(
        &self,
        new: &Self,
        store: &St,
        c0: &WebrenderUpdateContext<S>,
        c1: &WebrenderUpdateContext<S>,
    ) -> bool {
        new == self && c1 == c0
    }

    open spec fn after_event(&self, new: &Self, event: &WebrenderEvent) -> bool {
        new == self
    }

    fn draw(&self, ctx: &mut DisplayListBuilder, render_data: &WebrenderRenderData) {
        Rect::draw(self, ctx, render_data);
    }

    fn update(&mut self, ctx: &mut WebrenderUpdateContext<S>, store: &St) {
    }

    fn handle_event(&mut self, event: WebrenderEvent) {
    }
}

/// A label laid out once, at construction, from fixed text.
pub struct StaticLabel {
    pub text: LayoutedText,
    pub glyph_instances: Vec<GlyphInstance>,
    pub position: LayoutPoint,
    pub color: Color,
}

impl StaticLabel {
    /// Positions the glyphs of an already laid-out text at `position`.
    pub fn new(text: LayoutedText, position: LayoutPoint, color: Color) -> (r: StaticLabel)
        requires
            text.wf(),
            position.wf(),
        ensures
            r.text == text,
            r.position == position,
            r.color == color,
            r.glyph_instances@ == positioned_glyphs(text.indices@, text.dimensions@, position),
    {
        let glyph_instances = position_glyphs(&text.indices, &text.dimensions, position);
        StaticLabel { text, glyph_instances, position, color }
    }

    /// Appends this label's single glyph-run command.
    pub fn draw(&self, ctx: &mut DisplayListBuilder, rd: &WebrenderRenderData)
        ensures
            final(ctx)@ == old(ctx)@ + seq![
                label_command(self.position, &self.text, self.glyph_instances@, self.color, rd),
            ],
    {
        let area = LayoutRect::new(self.position, self.text.size);
        let mut info = CommonItemProperties::new(area, rd.space_clip);
        info.hit_info = Some(HitTag { tag: 0, sub: 1 });
        ctx.push_text(&info, area, &self.glyph_instances, self.text.inst_key, self.color);
    }
}

/// The one glyph-run command a label draws: its cached run at its cached
/// bounds, tagged for hit testing.
pub open spec fn label_command(
    position: LayoutPoint,
    text: &LayoutedText,
    glyphs: Seq<GlyphInstance>,
    color: Color,
    rd: &WebrenderRenderData,
) -> CommandView {
    CommandView::Text {
        area: LayoutRect { origin: position, size: text.size },
        space_clip: rd.space_clip,
        hit_info: Some(HitTag { tag: 0, sub: 1 }),
        glyphs,
        inst_key: text.inst_key,
        color,
    }
}

impl<St: Store, S: Shaper> Component<St, S, WebrenderRenderData, WebrenderEvent> for StaticLabel {
    /// A static label is materialized at construction, so always ready.
    open spec fn draw_ready(&self) -> bool {
        true
    }

    open spec fn update_ready(&self, store: &St) -> bool {
        true
    }

    /// Exactly one glyph-run command with the cached run and bounds.
    open spec fn draw_commands(&self, rd: &WebrenderRenderData) -> Seq<CommandView> {
        seq![label_command(self.position, &self.text, self.glyph_instances@, self.color, rd)]
    }

    /// Updating a static label is a no-op.
    open spec fn updated(
        &self,
        new: &Self,
        store: &St,
        c0: &WebrenderUpdateContext<S>,
        c1: &WebrenderUpdateContext<S>,
    ) -> bool {
        new == self && c1 == c0
    }

    open spec fn after_event(&self, new: &Self, event: &WebrenderEvent) -> bool {
        new == self
    }

    fn draw(&self, ctx: &mut DisplayListBuilder, render_data: &WebrenderRenderData) {
        StaticLabel::draw(self, ctx, render_data);
    }

    fn update(&mut self, ctx: &mut WebrenderUpdateContext<S>, store: &St) {
    }

    fn handle_event(&mut self, event: WebrenderEvent) {
    }
}

/// A memoized reactive label: holds a selector into the store, lays its
/// text out again only when the selected text actually changes, and draws
/// the cached glyph run every frame.
pub struct DynamicLabel<P: Projection<Out = Vec<char>>> {
    pub text_selector: Selector<P>,
    pub text: Option<LayoutedText>,
    pub glyph_instances: Vec<GlyphInstance>,
    pub position: LayoutPoint,
    pub color: Color,
}

impl<P: Projection<Out = Vec<char>>> DynamicLabel<P> {
    /// A label with no cached layout yet; it must be updated before it can
    /// draw.
    pub fn new(text_selector: Selector<P>, position: LayoutPoint, color: Color) -> (r: DynamicLabel<
        P,
    >)
        requires
            position.wf(),
        ensures
            r.text_selector == text_selector,
            r.position == position,
            r.color == color,
            r.text is None,
            r.glyph_instances@ =~= Seq::<GlyphInstance>::empty(),
    {
        DynamicLabel { text_selector, text: None, glyph_instances: Vec::new(), position, color }
    }

    /// The cached layout exists and was made from exactly this text.
    pub open spec fn cache_hits(&self, cur: Seq<char>) -> bool {
        self.text matches Some(lt) && lt.text@ == cur
    }

    /// Appends this label's single glyph-run command; the cache must be
    /// filled.
    pub fn draw(&self, ctx: &mut DisplayListBuilder, rd: &WebrenderRenderData)
        requires
            self.text is Some,
        ensures
            final(ctx)@ == old(ctx)@ + seq![
                label_command(self.position, &self.text->0, self.glyph_instances@, self.color, rd),
            ],
    {
        match &self.text {
            Some(text) => {
                let area = LayoutRect::new(self.position, text.size);
                let mut info = CommonItemProperties::new(area, rd.space_clip);
                info.hit_info = Some(HitTag { tag: 0, sub: 1 });
                ctx.push_text(&info, area, &self.glyph_instances, text.inst_key, self.color);
            },
            None => {
                // Drawing before the first update is a contract violation;
                // an unverified caller that reaches this point fails fast
                // instead of silently drawing nothing.
                vstd::pervasive::unreached::<()>()
            },
        }
    }
}

impl<St, S, P> Component<St, S, WebrenderRenderData, WebrenderEvent> for DynamicLabel<P> where
    St: Store,
    S: Shaper,
    P: Projection<In = St::State, Out = Vec<char>>,
 {
    /// Ready once some update has filled the cache.
    open spec fn draw_ready(&self) -> bool {
        self.text is Some
    }

    /// The anchor is in range and the text the selector currently derives
    /// fits one layout call.
    open spec fn update_ready(&self, store: &St) -> bool {
        &&& self.position.wf()
        &&& self.text_selector.proj.spec_project(store.state()).len() <= MAX_TEXT_LEN
    }

    /// Exactly one glyph-run command with the cached run and bounds.
    open spec fn draw_commands(&self, rd: &WebrenderRenderData) -> Seq<CommandView> {
        seq![
            label_command(self.position, &self.text->0, self.glyph_instances@, self.color, rd),
        ]
    }

    /// The memoization law. If the cached layout's source text equals the
    /// text the selector derives now, nothing happens: the label and the
    /// context (so in particular the shaper's query counters) are
    /// untouched. Otherwise the label holds a fresh layout of the derived
    /// text, glyphs positioned at its anchor, at the cost of exactly one
    /// index query and one metrics query.
    open spec fn updated(
        &self,
        new: &Self,
        store: &St,
        c0: &WebrenderUpdateContext<S>,
        c1: &WebrenderUpdateContext<S>,
    ) -> bool {
        let cur = self.text_selector.proj.spec_project(store.state());
        if self.cache_hits(cur) {
            new == self && c1 == c0
        } else {
            &&& new.text_selector == self.text_selector
            &&& new.position == self.position
            &&& new.color == self.color
            &&& c1.shaper.index_calls() == c0.shaper.index_calls() + 1
            &&& c1.shaper.metrics_calls() == c0.shaper.metrics_calls() + 1
            &&& new.text matches Some(lt) && lt.wf() && lt.matches_model(
                cur,
                c0.font,
                c0.font_inst,
                layout_model(c0.shaper, c0.font, c0.font_inst, cur),
            ) && new.glyph_instances@ == positioned_glyphs(
                lt.indices@,
                lt.dimensions@,
                self.position,
            )
        }
    }

    open spec fn after_event(&self, new: &Self, event: &WebrenderEvent) -> bool {
        new == self
    }

    /// Emits the cached glyph run; requires a prior successful update.
    fn draw(&self, ctx: &mut DisplayListBuilder, render_data: &WebrenderRenderData) {
        DynamicLabel::draw(self, ctx, render_data);
    }

    /// Reads the selector, skips all work when the text is unchanged, and
    /// otherwise lays the new text out and replaces the cached layout and
    /// the cached glyph run together.
    fn update(&mut self, ctx: &mut WebrenderUpdateContext<S>, store: &St) {
        let new_text = self.text_selector.select(store);
        match &self.text {
            Some(old_text) => {
                if chars_eq(&old_text.text, &new_text) {
                    return ;
                }
            },
            None => {},
        }
        let text = LayoutedText::new(new_text, ctx.font, ctx.font_inst, &mut ctx.shaper);
        self.glyph_instances = position_glyphs(&text.indices, &text.dimensions, self.position);
        self.text = Some(text);
    }

    fn handle_event(&mut self, event: WebrenderEvent) {
    }
}

/// Memoization idempotence: once a label has been updated against a
/// store, a second update against the same store state changes nothing —
/// not the label and not the update context, so in particular the shaping
/// collaborator is not re-invoked. Layout work is proportional to the
/// number of distinct text values seen, not the number of update calls.
pub proof fn lemma_label_memoization<St, S, P>(
    l0: DynamicLabel<P>,
    l1: DynamicLabel<P>,
    l2: DynamicLabel<P>,
    store: St,
    c0: WebrenderUpdateContext<S>,
    c1: WebrenderUpdateContext<S>,
    c2: WebrenderUpdateContext<S>,
) where St: Store, S: Shaper, P: Projection<In = St::State, Out = Vec<char>>
    requires
        l0.updated(&l1, &store, &c0, &c1),
        l1.updated(&l2, &store, &c1, &c2),
    ensures
        l2 == l1,
        c2 == c1,
{
    let cur = l0.text_selector.proj.spec_project(store.state());
    if l0.cache_hits(cur) {
        assert(l1 == l0);
    } else {
        assert(l1.text matches Some(lt) && lt.text@ == cur);
    }
    assert(l1.cache_hits(l1.text_selector.proj.spec_project(store.state())));
}

/// A widget tree node: one of the closed set of widget kinds. Groups nest,
/// so a value of this type is a whole subtree.
pub enum Widget<P: Projection<Out = Vec<char>>> {
    Rect(Rect),
    StaticLabel(StaticLabel),
    DynamicLabel(DynamicLabel<P>),
    Group(Group<P>),
}

/// An ordered sequence of child widgets. Every operation fans out to the
/// children in insertion order; later children draw on top.
pub struct Group<P: Projection<Out = Vec<char>>> {
    pub children: Vec<Widget<P>>,
}

/// The tree's single, stable entry point: holds exactly one child and
/// forwards every operation to it unchanged.
pub struct Root<P: Projection<Out = Vec<char>>> {
    pub child: Widget<P>,
}

/// Every widget of the subtree has a fresh cached representation.
pub open spec fn widget_draw_ready<P: Projection<Out = Vec<char>>>(w: Widget<P>) -> bool
    decreases w, 0int,
{
    match w {
        Widget::Rect(x) => true,
        Widget::StaticLabel(l) => true,
        Widget::DynamicLabel(d) => d.text is Some,
        Widget::Group(g) => children_draw_ready(g.children@),
    }
}

/// Every child has a fresh cached representation.
pub open spec fn children_draw_ready<P: Projection<Out = Vec<char>>>(ws: Seq<Widget<P>>) -> bool
    decreases ws, 0int,
{
    forall|j: int| 0 <= j < ws.len() ==> widget_draw_ready(#[trigger] ws[j])
}

/// Every widget of the subtree may be updated against `store`.
pub open spec fn widget_update_ready<St, P>(w: Widget<P>, store: St) -> bool where
    St: Store,
    P: Projection<In = St::State, Out = Vec<char>>,

    decreases w, 0int,
{
    match w {
        Widget::Rect(x) => true,
        Widget::StaticLabel(l) => true,
        Widget::DynamicLabel(d) => d.position.wf() && d.text_selector.proj.spec_project(
            store.state(),
        ).len() <= MAX_TEXT_LEN,
        Widget::Group(g) => children_update_ready(g.children@, store),
    }
}

/// Every child may be updated against `store`.
pub open spec fn children_update_ready<St, P>(ws: Seq<Widget<P>>, store: St) -> bool where
    St: Store,
    P: Projection<In = St::State, Out = Vec<char>>,

    decreases ws, 0int,
{
    forall|j: int| 0 <= j < ws.len() ==> widget_update_ready(#[trigger] ws[j], store)
}

/// The draw commands one widget subtree emits, in order.
pub open spec fn widget_commands<P: Projection<Out = Vec<char>>>(
    w: Widget<P>,
    rd: &WebrenderRenderData,
) -> Seq<CommandView>
    decreases w, 0int,
{
    match w {
        Widget::Rect(x) => seq![rect_command(x, rd)],
        Widget::StaticLabel(l) => seq![
            label_command(l.position, &l.text, l.glyph_instances@, l.color, rd),
        ],
        Widget::DynamicLabel(d) => seq![
            label_command(d.position, &d.text->0, d.glyph_instances@, d.color, rd),
        ],
        Widget::Group(g) => children_commands(g.children@, rd, g.children@.len() as int),
    }
}

/// The draw commands of the first `i` children, concatenated in child
/// order: composition preserves insertion order.
pub open spec fn children_commands<P: Projection<Out = Vec<char>>>(
    ws: Seq<Widget<P>>,
    rd: &WebrenderRenderData,
    i: int,
) -> Seq<CommandView>
    decreases ws, i,
        when i <= ws.len()
{
    if i <= 0 {
        Seq::empty()
    } else {
        children_commands(ws, rd, i - 1) + widget_commands(ws[i - 1], rd)
    }
}

/// How one update call relates an old and a new widget subtree and the
/// old and the new update context; each leaf answers with its own law.
pub open spec fn widget_updated<St, S, P>(
    w0: Widget<P>,
    w1: Widget<P>,
    store: St,
    c0: WebrenderUpdateContext<S>,
    c1: WebrenderUpdateContext<S>,
) -> bool where
    St: Store,
    S: Shaper,
    P: Projection<In = St::State, Out = Vec<char>>,

    decreases w0, 0int,
{
    match w0 {
        Widget::Rect(a) => w1 matches Widget::Rect(b) && b == a && c1 == c0,
        Widget::StaticLabel(a) => w1 matches Widget::StaticLabel(b) && b == a && c1 == c0,
        Widget::DynamicLabel(a) => w1 matches Widget::DynamicLabel(b) && a.updated(
            &b,
            &store,
            &c0,
            &c1,
        ),
        Widget::Group(a) => w1 matches Widget::Group(b) && (exists|
            ctxs: Seq<WebrenderUpdateContext<S>>,
        |
            #[trigger] chain_marker(ctxs) && context_chain(a.children@, b.children@, store, ctxs)
                && ctxs.first() == c0 && ctxs.last() == c1),
    }
}

/// Marks a context run as a candidate witness; always true. It exists to
/// carry the quantifier trigger for the chain existentials below.
pub open spec fn chain_marker<S: Shaper>(ctxs: Seq<WebrenderUpdateContext<S>>) -> bool {
    true
}

/// A run of contexts witnessing that each old child was updated to the
/// matching new child in order: child `j` was updated between context `j`
/// and context `j + 1`.
pub open spec fn context_chain<St, S, P>(
    olds: Seq<Widget<P>>,
    news: Seq<Widget<P>>,
    store: St,
    ctxs: Seq<WebrenderUpdateContext<S>>,
) -> bool where
    St: Store,
    S: Shaper,
    P: Projection<In = St::State, Out = Vec<char>>,

    decreases olds, 0int,
{
    &&& news.len() == olds.len()
    &&& ctxs.len() == olds.len() + 1
    &&& forall|j: int|
        0 <= j < olds.len() ==> widget_updated(
            #[trigger] olds[j],
            news[j],
            store,
            ctxs[j],
            ctxs[j + 1],
        )
}

/// The old children were each updated, in order, to the matching new
/// children, through some chain of intermediate contexts starting at `c0`
/// and ending at `c1`.
pub open spec fn children_updated<St, S, P>(
    olds: Seq<Widget<P>>,
    news: Seq<Widget<P>>,
    store: St,
    c0: WebrenderUpdateContext<S>,
    c1: WebrenderUpdateContext<S>,
) -> bool where
    St: Store,
    S: Shaper,
    P: Projection<In = St::State, Out = Vec<char>>,
 {
    exists|ctxs: Seq<WebrenderUpdateContext<S>>|
        #[trigger] chain_marker(ctxs) && context_chain(olds, news, store, ctxs) && ctxs.first()
            == c0 && ctxs.last() == c1
}

/// Updates one widget subtree against the store through the context's
/// shaper, bottom-up, left to right, and returns the updated subtree.
fn update_widget<St, S, P>(
    w: Widget<P>,
    ctx: &mut WebrenderUpdateContext<S>,
    store: &St,
) -> (r: Widget<P>) where
    St: Store,
    S: Shaper,
    P: Projection<In = St::State, Out = Vec<char>>,

    requires
        widget_update_ready(w, *store),
    ensures
        widget_draw_ready(r),
        widget_update_ready(r, *store),
        final(ctx).font == old(ctx).font,
        final(ctx).font_inst == old(ctx).font_inst,
        final(ctx).img == old(ctx).img,
        mapping_preserved(&old(ctx).shaper, &final(ctx).shaper),
        widget_updated(w, r, *store, *old(ctx), *final(ctx)),
    decreases w, 0int,
{
    match w {
        Widget::Rect(x) => {
            let r = Widget::Rect(x);
            proof {
                assert(widget_updated(w, r, *store, *old(ctx), *ctx));
            }
            r
        },
        Widget::StaticLabel(l) => {
            let r = Widget::StaticLabel(l);
            proof {
                assert(widget_updated(w, r, *store, *old(ctx), *ctx));
            }
            r
        },
        Widget::DynamicLabel(mut d) => {
            <DynamicLabel<P> as Component<St, S, WebrenderRenderData, WebrenderEvent>>::update(
                &mut d,
                ctx,
                store,
            );
            let r = Widget::DynamicLabel(d);
            proof {
                assert(widget_updated(w, r, *store, *old(ctx), *ctx));
            }
            r
        },
        Widget::Group(g) => {
            proof {
                assert(decreases_to!(g.children => g.children@));
            }
            let ghost olds: Seq<Widget<P>> = g.children@;
            let children = update_children(g.children, Ghost(olds), ctx, store);
            let r = Widget::Group(Group { children });
            proof {
                assert(children_updated(olds, r->Group_0.children@, *store, *old(ctx), *ctx));
                let cs = choose|cs: Seq<WebrenderUpdateContext<S>>|
                    #[trigger] chain_marker(cs) && context_chain(
                        olds,
                        r->Group_0.children@,
                        *store,
                        cs,
                    ) && cs.first() == *old(ctx) && cs.last() == *ctx;
                assert(w->Group_0.children@ == olds);
                assert(chain_marker(cs) && context_chain(
                    w->Group_0.children@,
                    r->Group_0.children@,
                    *store,
                    cs,
                ) && cs.first() == *old(ctx) && cs.last() == *ctx);
                assert(widget_updated(w, r, *store, *old(ctx), *ctx));
            }
            r
        },
    }
}

/// Updates an owned run of children in order, threading the context
/// through each; returns the updated run.
#[verifier::loop_isolation(false)]
fn update_children<St, S, P>(
    children: Vec<Widget<P>>,
    anchor: Ghost<Seq<Widget<P>>>,
    ctx: &mut WebrenderUpdateContext<S>,
    store: &St,
) -> (r: Vec<Widget<P>>) where
    St: Store,
    S: Shaper,
    P: Projection<In = St::State, Out = Vec<char>>,

    requires
        anchor@ == children@,
        children_update_ready(children@, *store),
    ensures
        r@.len() == children@.len(),
        children_draw_ready(r@),
        children_update_ready(r@, *store),
        final(ctx).font == old(ctx).font,
        final(ctx).font_inst == old(ctx).font_inst,
        final(ctx).img == old(ctx).img,
        mapping_preserved(&old(ctx).shaper, &final(ctx).shaper),
        children_updated(children@, r@, *store, *old(ctx), *final(ctx)),
    decreases anchor@, 0int,
{
    let ghost orig = children@;
    let mut rest = children;
    let mut done: Vec<Widget<P>> = Vec::new();
    let ghost mut ctxs: Seq<WebrenderUpdateContext<S>> = seq![*ctx];
    proof {
        assert(rest@ =~= orig.skip(0));
        assert(orig.take(0) =~= Seq::<Widget<P>>::empty());
    }
    while rest.len() > 0
        invariant
            done@.len() + rest@.len() == orig.len(),
            rest@ == orig.skip(done@.len() as int),
            children_update_ready(orig, *store),
            children_draw_ready(done@),
            children_update_ready(done@, *store),
            ctx.font == old(ctx).font,
            ctx.font_inst == old(ctx).font_inst,
            ctx.img == old(ctx).img,
            mapping_preserved(&old(ctx).shaper, &ctx.shaper),
            ctxs.len() == done@.len() + 1,
            ctxs.first() == *old(ctx),
            ctxs.last() == *ctx,
            context_chain(orig.take(done@.len() as int), done@, *store, ctxs),
        decreases rest@.len(),
    {
        let ghost k = done@.len() as int;
        let ghost done0 = done@;
        let ghost ctxs0 = ctxs;
        let ghost c_prev = *ctx;
        let w = rest.remove(0);
        proof {
            assert(w == orig.skip(k)[0]);
            assert(w == orig[k]);
            assert(rest@ =~= orig.skip(k + 1));
            assert(children_update_ready(orig, *store));
            assert(widget_update_ready(orig[k], *store));
            assert(decreases_to!(orig => orig[k]));
        }
        let w2 = update_widget(w, ctx, store);
        done.push(w2);
        proof {
            ctxs = ctxs.push(*ctx);
            assert(done@ == done0.push(w2));
            assert forall|j: int| 0 <= j < done@.len() implies widget_draw_ready(
                #[trigger] done@[j],
            ) by {
                if j < k {
                    assert(done@[j] == done0[j]);
                    assert(children_draw_ready(done0));
                }
            }
            assert forall|j: int| 0 <= j < done@.len() implies widget_update_ready(
                #[trigger] done@[j],
                *store,
            ) by {
                if j < k {
                    assert(done@[j] == done0[j]);
                    assert(children_update_ready(done0, *store));
                }
            }
            assert(widget_updated(orig[k], w2, *store, c_prev, *ctx));
            assert forall|j: int| 0 <= j < orig.take(k + 1).len() implies widget_updated(
                #[trigger] orig.take(k + 1)[j],
                done@[j],
                *store,
                ctxs[j],
                ctxs[j + 1],
            ) by {
                if j < k {
                    assert(orig.take(k + 1)[j] == orig.take(k)[j]);
                    assert(done@[j] == done0[j]);
                    assert(ctxs[j] == ctxs0[j]);
                    assert(ctxs[j + 1] == ctxs0[j + 1]);
                    assert(context_chain(orig.take(k), done0, *store, ctxs0));
                    assert(widget_updated(orig.take(k)[j], done0[j], *store, ctxs0[j], ctxs0[j
                        + 1]));
                } else {
                    assert(orig.take(k + 1)[j] == orig[k]);
                    assert(done@[j] == w2);
                    assert(ctxs[j] == ctxs0.last());
                    assert(ctxs0.last() == c_prev);
                    assert(ctxs[j + 1] == *ctx);
                }
            }
            assert(context_chain(orig.take(k + 1), done@, *store, ctxs));
        }
    }
    proof {
        assert(orig.take(done@.len() as int) =~= orig);
        assert(context_chain(orig, done@, *store, ctxs));
        assert(chain_marker(ctxs) && context_chain(orig, done@, *store, ctxs) && ctxs.first()
            == *old(ctx) && ctxs.last() == *ctx);
        assert(children_updated(orig, done@, *store, *old(ctx), *ctx));
    }
    done
}

impl<P: Projection<Out = Vec<char>>> Widget<P> {
    /// Draws this subtree: appends exactly its commands, children in
    /// order.
    #[verifier::loop_isolation(false)]
    pub fn draw(&self, ctx: &mut DisplayListBuilder, rd: &WebrenderRenderData)
        requires
            widget_draw_ready(*self),
        ensures
            final(ctx)@ == old(ctx)@ + widget_commands(*self, rd),
        decreases *self, 1int,
    {
        match self {
            Widget::Rect(x) => Rect::draw(x, ctx, rd),
            Widget::StaticLabel(l) => StaticLabel::draw(l, ctx, rd),
            Widget::DynamicLabel(d) => DynamicLabel::draw(d, ctx, rd),
            Widget::Group(g) => {
                Group::draw(g, ctx, rd);
            },
        }
    }
}

impl<P: Projection<Out = Vec<char>>> Group<P> {
    /// An empty group.
    pub fn new() -> (r: Group<P>)
        ensures
            r.children@ =~= Seq::<Widget<P>>::empty(),
    {
        Group { children: Vec::new() }
    }

    /// Appends a child; it will draw after (on top of) the existing ones.
    pub fn push(&mut self, child: Widget<P>)
        ensures
            final(self).children@ == old(self).children@.push(child),
    {
        self.children.push(child);
    }

    /// Draws every child in insertion order.
    #[verifier::loop_isolation(false)]
    pub fn draw(&self, ctx: &mut DisplayListBuilder, rd: &WebrenderRenderData)
        requires
            children_draw_ready(self.children@),
        ensures
            final(ctx)@ == old(ctx)@ + children_commands(
                self.children@,
                rd,
                self.children@.len() as int,
            ),
        decreases *self, 0int,
    {
        let n: usize = self.children.len();
        proof {
            assert(old(ctx)@ + children_commands(self.children@, rd, 0) =~= old(ctx)@);
        }
        for i in 0..n
            invariant
                n == self.children@.len(),
                ctx@ == old(ctx)@ + children_commands(self.children@, rd, i as int),
        {
            proof {
                assert(children_draw_ready(self.children@));
                assert(widget_draw_ready(self.children@[i as int]));
                assert(decreases_to!(self.children => self.children@));
                assert(decreases_to!(self.children@ => self.children@[i as int]));
            }
            let ghost mid = ctx@;
            Widget::draw(&self.children[i], ctx, rd);
            proof {
                assert(children_commands(self.children@, rd, i + 1) == children_commands(
                    self.children@,
                    rd,
                    i as int,
                ) + widget_commands(self.children@[i as int], rd));
                assert(old(ctx)@ + children_commands(self.children@, rd, i + 1) =~= (old(ctx)@
                    + children_commands(self.children@, rd, i as int)) + widget_commands(
                    self.children@[i as int],
                    rd,
                ));
            }
        }
    }
}

impl<P: Projection<Out = Vec<char>>> Root<P> {
    /// Wraps the tree's one top-level widget.
    pub fn new(child: Widget<P>) -> (r: Root<P>)
        ensures
            r.child == child,
    {
        Root { child }
    }

    /// Draws the tree: emits exactly the child's commands.
    pub fn draw(&self, ctx: &mut DisplayListBuilder, rd: &WebrenderRenderData)
        requires
            widget_draw_ready(self.child),
        ensures
            final(ctx)@ == old(ctx)@ + widget_commands(self.child, rd),
    {
        Widget::draw(&self.child, ctx, rd);
    }
}

impl<St, S, P> Component<St, S, WebrenderRenderData, WebrenderEvent> for Widget<P> where
    St: Store,
    S: Shaper,
    P: Projection<In = St::State, Out = Vec<char>>,
 {
    open spec fn draw_ready(&self) -> bool {
        widget_draw_ready(*self)
    }

    open spec fn update_ready(&self, store: &St) -> bool {
        widget_update_ready(*self, *store)
    }

    open spec fn draw_commands(&self, rd: &WebrenderRenderData) -> Seq<CommandView> {
        widget_commands(*self, rd)
    }

    open spec fn updated(
        &self,
        new: &Self,
        store: &St,
        c0: &WebrenderUpdateContext<S>,
        c1: &WebrenderUpdateContext<S>,
    ) -> bool {
        widget_updated(*self, *new, *store, *c0, *c1)
    }

    open spec fn after_event(&self, new: &Self, event: &WebrenderEvent) -> bool {
        new == self
    }

    fn draw(&self, ctx: &mut DisplayListBuilder, render_data: &WebrenderRenderData) {
        Widget::draw(self, ctx, render_data);
    }

    fn update(&mut self, ctx: &mut WebrenderUpdateContext<S>, store: &St) {
        let mut tmp = Widget::Rect(
            Rect {
                area: LayoutRect {
                    origin: LayoutPoint { x: 0, y: 0 },
                    size: crate::geometry::LayoutSize { w: 0, h: 0 },
                },
                color: Color { r: 0, g: 0, b: 0, a: 0 },
            },
        );
        core::mem::swap(&mut tmp, self);
        let updated = update_widget(tmp, ctx, store);
        *self = updated;
    }

    fn handle_event(&mut self, event: WebrenderEvent) {
    }
}

impl<St, S, P> Component<St, S, WebrenderRenderData, WebrenderEvent> for Group<P> where
    St: Store,
    S: Shaper,
    P: Projection<In = St::State, Out = Vec<char>>,
 {
    open spec fn draw_ready(&self) -> bool {
        children_draw_ready(self.children@)
    }

    open spec fn update_ready(&self, store: &St) -> bool {
        children_update_ready(self.children@, *store)
    }

    /// A group's commands are its children's commands, concatenated in
    /// insertion order.
    open spec fn draw_commands(&self, rd: &WebrenderRenderData) -> Seq<CommandView> {
        children_commands(self.children@, rd, self.children@.len() as int)
    }

    open spec fn updated(
        &self,
        new: &Self,
        store: &St,
        c0: &WebrenderUpdateContext<S>,
        c1: &WebrenderUpdateContext<S>,
    ) -> bool {
        children_updated(self.children@, new.children@, *store, *c0, *c1)
    }

    open spec fn after_event(&self, new: &Self, event: &WebrenderEvent) -> bool {
        new == self
    }

    fn draw(&self, ctx: &mut DisplayListBuilder, render_data: &WebrenderRenderData) {
        Group::draw(self, ctx, render_data);
    }

    fn update(&mut self, ctx: &mut WebrenderUpdateContext<S>, store: &St) {
        let mut owned: Vec<Widget<P>> = Vec::new();
        core::mem::swap(&mut owned, &mut self.children);
        let ghost anchor: Seq<Widget<P>> = owned@;
        let updated = update_children(owned, Ghost(anchor), ctx, store);
        self.children = updated;
    }

    fn handle_event(&mut self, event: WebrenderEvent) {
    }
}

impl<St, S, P> Component<St, S, WebrenderRenderData, WebrenderEvent> for Root<P> where
    St: Store,
    S: Shaper,
    P: Projection<In = St::State, Out = Vec<char>>,
 {
    open spec fn draw_ready(&self) -> bool {
        widget_draw_ready(self.child)
    }

    open spec fn update_ready(&self, store: &St) -> bool {
        widget_update_ready(self.child, *store)
    }

    /// A root adds nothing of its own: it emits its child's commands.
    open spec fn draw_commands(&self, rd: &WebrenderRenderData) -> Seq<CommandView> {
        widget_commands(self.child, rd)
    }

    /// A root forwards the update unchanged to its one child.
    open spec fn updated(
        &self,
        new: &Self,
        store: &St,
        c0: &WebrenderUpdateContext<S>,
        c1: &WebrenderUpdateContext<S>,
    ) -> bool {
        widget_updated(self.child, new.child, *store, *c0, *c1)
    }

    open spec fn after_event(&self, new: &Self, event: &WebrenderEvent) -> bool {
        new == self
    }

    fn draw(&self, ctx: &mut DisplayListBuilder, render_data: &WebrenderRenderData) {
        Widget::draw(&self.child, ctx, render_data);
    }

    fn update(&mut self, ctx: &mut WebrenderUpdateContext<S>, store: &St) {
        <Widget<P> as Component<St, S, WebrenderRenderData, WebrenderEvent>>::update(
            &mut self.child,
            ctx,
            store,
        );
    }

    fn handle_event(&mut self, event: WebrenderEvent) {
    }
}

/// The command run of a prefix of children depends only on that prefix.
proof fn lemma_children_commands_prefix<P: Projection<Out = Vec<char>>>(
    ws1: Seq<Widget<P>>,
    ws2: Seq<Widget<P>>,
    rd: &WebrenderRenderData,
    i: int,
)
    requires
        0 <= i <= ws1.len(),
        i <= ws2.len(),
        forall|j: int| 0 <= j < i ==> ws1[j] == #[trigger] ws2[j],
    ensures
        children_commands(ws1, rd, i) == children_commands(ws2, rd, i),
    decreases i,
{
    if i > 0 {
        lemma_children_commands_prefix(ws1, ws2, rd, i - 1);
    }
}

/// Composition preserves insertion order: the commands of a group with one
/// more child appended are the commands of the group so far followed by
/// the commands of the appended child. So reordering insertion reorders
/// the emitted commands identically.
pub proof fn lemma_group_insertion_order<P: Projection<Out = Vec<char>>>(
    ws: Seq<Widget<P>>,
    w: Widget<P>,
    rd: &WebrenderRenderData,
)
    ensures
        children_commands(ws.push(w), rd, ws.len() + 1 as int) == children_commands(
            ws,
            rd,
            ws.len() as int,
        ) + widget_commands(w, rd),
{
    lemma_children_commands_prefix(ws.push(w), ws, rd, ws.len() as int);
    assert(ws.push(w)[ws.len() as int] == w);
}

} // verus!
