//! Pure text layout: from a string and a font to glyph indices, glyph
//! metrics and an overall bounding size.
//!
//! Layout resolves each character through the shaping collaborator,
//! left-to-right, and silently drops every character whose glyph index or
//! glyph metrics the shaper cannot resolve. The bounding width is the sum
//! of the kept advances; the bounding height is the largest vertical extent
//! `height + (height - top)` over the kept glyphs. The result is a pure
//! function of the text, the font handles and the shaper's mapping.

use vstd::prelude::*;

use crate::geometry::{LayoutPoint, LayoutSize, MAX_COORD, MAX_GLYPH_EXTENT};
use crate::shaper::{FontInstanceKey, FontKey, GlyphMetrics, Shaper, mapping_preserved};

verus! {

/// Longest text a single layout call accepts; keeps every advance sum well
/// inside `i64`.
pub const MAX_TEXT_LEN: usize = 0x0100_0000;

/// A glyph index placed at an absolute position, ready for drawing.
#[derive(Clone, Copy, PartialEq, Eq, Structural, Debug)]
pub struct GlyphInstance {
    pub index: u32,
    pub point: LayoutPoint,
}

/// The glyph indices the shaper resolves for `text`, in text order, with
/// unresolved characters dropped.
pub open spec fn resolved_indices<S: Shaper>(sh: S, font: FontKey, text: Seq<char>) -> Seq<u32>
    decreases text.len(),
{
    if text.len() == 0 {
        Seq::empty()
    } else {
        let rest = resolved_indices(sh, font, text.drop_last());
        match sh.glyph_index_of(font, text.last()) {
            Some(g) => rest.push(g),
            None => rest,
        }
    }
}

/// Of `glyphs`, those whose metrics the shaper resolves, in order.
pub open spec fn kept_glyphs<S: Shaper>(sh: S, inst: FontInstanceKey, glyphs: Seq<u32>) -> Seq<u32>
    decreases glyphs.len(),
{
    if glyphs.len() == 0 {
        Seq::empty()
    } else {
        let rest = kept_glyphs(sh, inst, glyphs.drop_last());
        match sh.metrics_of(inst, glyphs.last()) {
            Some(m) => rest.push(glyphs.last()),
            None => rest,
        }
    }
}

/// The metrics parallel to [`kept_glyphs`]: one entry per kept glyph.
pub open spec fn kept_metrics<S: Shaper>(
    sh: S,
    inst: FontInstanceKey,
    glyphs: Seq<u32>,
) -> Seq<GlyphMetrics>
    decreases glyphs.len(),
{
    if glyphs.len() == 0 {
        Seq::empty()
    } else {
        let rest = kept_metrics(sh, inst, glyphs.drop_last());
        match sh.metrics_of(inst, glyphs.last()) {
            Some(m) => rest.push(m),
            None => rest,
        }
    }
}

/// Total horizontal advance of a run of glyph metrics.
pub open spec fn advance_sum(dims: Seq<GlyphMetrics>) -> int
    decreases dims.len(),
{
    if dims.len() == 0 {
        0
    } else {
        advance_sum(dims.drop_last()) + dims.last().advance
    }
}

/// Largest vertical extent `height + (height - top)` of a run, zero when
/// the run is empty or every extent is negative.
pub open spec fn max_extent(dims: Seq<GlyphMetrics>) -> int
    decreases dims.len(),
{
    if dims.len() == 0 {
        0
    } else {
        let rest = max_extent(dims.drop_last());
        let d = 2 * dims.last().height - dims.last().top;
        if d > rest {
            d
        } else {
            rest
        }
    }
}

/// Largest glyph height of a run, zero when the run is empty.
pub open spec fn max_height(dims: Seq<GlyphMetrics>) -> int
    decreases dims.len(),
{
    if dims.len() == 0 {
        0
    } else {
        let rest = max_height(dims.drop_last());
        if dims.last().height > rest {
            dims.last().height as int
        } else {
            rest
        }
    }
}

/// Everything layout derives from (text, font, font instance, shaper
/// mapping): the kept glyphs, their metrics, and the bounding size.
pub struct LayoutModel {
    pub indices: Seq<u32>,
    pub dimensions: Seq<GlyphMetrics>,
    pub width: int,
    pub height: int,
}

/// The layout a given shaper mapping assigns to `text`.
pub open spec fn layout_model<S: Shaper>(
    sh: S,
    font: FontKey,
    inst: FontInstanceKey,
    text: Seq<char>,
) -> LayoutModel {
    let gs = resolved_indices(sh, font, text);
    let ds = kept_metrics(sh, inst, gs);
    LayoutModel {
        indices: kept_glyphs(sh, inst, gs),
        dimensions: ds,
        width: advance_sum(ds),
        height: max_extent(ds),
    }
}

/// One laid-out string: the source text, the kept glyph indices, their
/// metrics in parallel, the font handles used, and the bounding size.
pub struct LayoutedText {
    pub text: Vec<char>,
    pub indices: Vec<u32>,
    pub dimensions: Vec<GlyphMetrics>,
    pub font_key: FontKey,
    pub inst_key: FontInstanceKey,
    pub size: LayoutSize,
}

impl LayoutedText {
    /// Structural soundness: parallel runs, bounded length, sane metrics.
    pub open spec fn wf(&self) -> bool {
        &&& self.indices@.len() == self.dimensions@.len()
        &&& self.dimensions@.len() <= self.text@.len()
        &&& self.text@.len() <= MAX_TEXT_LEN
        &&& forall|i: int| 0 <= i < self.dimensions@.len() ==> (#[trigger] self.dimensions@[i]).wf()
    }

    /// This value is exactly the layout of `text` under model `m`.
    pub open spec fn matches_model(
        &self,
        text: Seq<char>,
        font: FontKey,
        inst: FontInstanceKey,
        m: LayoutModel,
    ) -> bool {
        &&& self.text@ == text
        &&& self.font_key == font
        &&& self.inst_key == inst
        &&& self.indices@ == m.indices
        &&& self.dimensions@ == m.dimensions
        &&& self.size.w == m.width
        &&& self.size.h == m.height
    }

    /// Lays out `text` with the given font and font instance, resolving
    /// glyphs through `shaper` with one index query and one metrics query.
    /// Characters without a resolvable glyph index or metrics are dropped.
    pub fn new<S: Shaper>(
        text: Vec<char>,
        font_key: FontKey,
        inst_key: FontInstanceKey,
        shaper: &mut S,
    ) -> (r: LayoutedText)
        requires
            text@.len() <= MAX_TEXT_LEN,
        ensures
            r.matches_model(
                text@,
                font_key,
                inst_key,
                layout_model(*old(shaper), font_key, inst_key, text@),
            ),
            r.wf(),
            final(shaper).index_calls() == old(shaper).index_calls() + 1,
            final(shaper).metrics_calls() == old(shaper).metrics_calls() + 1,
            mapping_preserved(old(shaper), final(shaper)),
    {
        let ghost sh0: S = *old(shaper);
        let opts = shaper.get_glyph_indices(font_key, &text);
        let mut indices: Vec<u32> = Vec::new();
        let n: usize = text.len();
        proof {
            assert(text@.take(0) =~= Seq::<char>::empty());
        }
        for i in 0..n
            invariant
                n == text@.len(),
                opts@.len() == text@.len(),
                forall|j: int|
                    0 <= j < text@.len() ==> opts@[j] == sh0.glyph_index_of(
                        font_key,
                        #[trigger] text@[j],
                    ),
                indices@ == resolved_indices(sh0, font_key, text@.take(i as int)),
                indices@.len() <= i,
        {
            proof {
                assert(text@.take(i + 1).drop_last() =~= text@.take(i as int));
                assert(text@.take(i + 1).last() == text@[i as int]);
            }
            match opts[i] {
                Some(g) => indices.push(g),
                None => (),
            }
        }
        proof {
            assert(text@.take(n as int) =~= text@);
        }
        let ghost gs = resolved_indices(sh0, font_key, text@);
        let mopts = shaper.get_glyph_dimensions(inst_key, &indices);
        let mut kept_idx: Vec<u32> = Vec::new();
        let mut kept_dim: Vec<GlyphMetrics> = Vec::new();
        let k: usize = indices.len();
        proof {
            assert(gs.take(0) =~= Seq::<u32>::empty());
        }
        for i in 0..k
            invariant
                k == indices@.len(),
                indices@ == gs,
                gs.len() <= text@.len(),
                mopts@.len() == indices@.len(),
                forall|j: int|
                    0 <= j < indices@.len() ==> mopts@[j] == sh0.metrics_of(
                        inst_key,
                        #[trigger] indices@[j],
                    ),
                forall|j: int|
                    0 <= j < indices@.len() && mopts@[j] is Some ==> (#[trigger] mopts@[j])->0.wf(),
                kept_idx@ == kept_glyphs(sh0, inst_key, gs.take(i as int)),
                kept_dim@ == kept_metrics(sh0, inst_key, gs.take(i as int)),
                kept_idx@.len() == kept_dim@.len(),
                kept_dim@.len() <= i,
                forall|j: int| 0 <= j < kept_dim@.len() ==> (#[trigger] kept_dim@[j]).wf(),
        {
            proof {
                assert(gs.take(i + 1).drop_last() =~= gs.take(i as int));
                assert(gs.take(i + 1).last() == gs[i as int]);
            }
            match mopts[i] {
                Some(m) => {
                    kept_idx.push(indices[i]);
                    kept_dim.push(m);
                },
                None => (),
            }
        }
        proof {
            assert(gs.take(k as int) =~= gs);
        }
        let size = run_size(&kept_dim);
        LayoutedText { text, indices: kept_idx, dimensions: kept_dim, font_key, inst_key, size }
    }
}

/// Two layouts of the same text, font handles and shaping results agree in
/// every observable: layout construction is deterministic.
pub proof fn lemma_layout_deterministic(
    a: LayoutedText,
    b: LayoutedText,
    text: Seq<char>,
    font: FontKey,
    inst: FontInstanceKey,
    m: LayoutModel,
)
    requires
        a.matches_model(text, font, inst, m),
        b.matches_model(text, font, inst, m),
    ensures
        a.text@ == b.text@,
        a.indices@ == b.indices@,
        a.dimensions@ == b.dimensions@,
        a.font_key == b.font_key,
        a.inst_key == b.inst_key,
        a.size == b.size,
{
}

/// The bounding size of a run of kept metrics: total advance by largest
/// extent.
fn run_size(dims: &Vec<GlyphMetrics>) -> (r: LayoutSize)
    requires
        dims@.len() <= MAX_TEXT_LEN,
        forall|i: int| 0 <= i < dims@.len() ==> (#[trigger] dims@[i]).wf(),
    ensures
        r.w == advance_sum(dims@),
        r.h == max_extent(dims@),
{
    let mut w: i64 = 0;
    let mut h: i64 = 0;
    let n: usize = dims.len();
    proof {
        assert(dims@.take(0) =~= Seq::<GlyphMetrics>::empty());
    }
    for i in 0..n
        invariant
            n == dims@.len(),
            n <= MAX_TEXT_LEN,
            forall|j: int| 0 <= j < dims@.len() ==> (#[trigger] dims@[j]).wf(),
            w == advance_sum(dims@.take(i as int)),
            0 <= w <= i * MAX_GLYPH_EXTENT,
            h == max_extent(dims@.take(i as int)),
            0 <= h <= 3 * MAX_GLYPH_EXTENT,
    {
        proof {
            assert(dims@.take(i + 1).drop_last() =~= dims@.take(i as int));
            assert(dims@.take(i + 1).last() == dims@[i as int]);
            assert(i * MAX_GLYPH_EXTENT + MAX_GLYPH_EXTENT == (i + 1) * MAX_GLYPH_EXTENT)
                by (nonlinear_arith);
            assert(i * MAX_GLYPH_EXTENT <= MAX_TEXT_LEN * MAX_GLYPH_EXTENT) by (nonlinear_arith)
                requires 0 <= i <= MAX_TEXT_LEN
            ;
        }
        w = w + dims[i].advance;
        let d: i64 = 2 * dims[i].height - dims[i].top;
        if d > h {
            h = d;
        }
    }
    proof {
        assert(dims@.take(n as int) =~= dims@);
    }
    LayoutSize { w, h }
}

/// Where each kept glyph lands on screen: x advances glyph by glyph from
/// the anchor, y sits at the anchor plus the run's largest glyph height.
pub open spec fn positioned_glyphs(
    indices: Seq<u32>,
    dims: Seq<GlyphMetrics>,
    pos: LayoutPoint,
) -> Seq<GlyphInstance> {
    Seq::new(
        indices.len(),
        |i: int|
            GlyphInstance {
                index: indices[i],
                point: LayoutPoint {
                    x: (pos.x + advance_sum(dims.take(i))) as i64,
                    y: (pos.y + max_height(dims)) as i64,
                },
            },
    )
}

/// Walks a laid-out run left to right and assigns each glyph its absolute
/// position, using the run's largest glyph height as the baseline offset.
pub fn position_glyphs(indices: &Vec<u32>, dims: &Vec<GlyphMetrics>, pos: LayoutPoint) -> (r: Vec<
    GlyphInstance,
>)
    requires
        indices@.len() == dims@.len(),
        dims@.len() <= MAX_TEXT_LEN,
        forall|i: int| 0 <= i < dims@.len() ==> (#[trigger] dims@[i]).wf(),
        pos.wf(),
    ensures
        r@ == positioned_glyphs(indices@, dims@, pos),
{
    let mut offset: i64 = 0;
    let n: usize = dims.len();
    proof {
        assert(dims@.take(0) =~= Seq::<GlyphMetrics>::empty());
    }
    for i in 0..n
        invariant
            n == dims@.len(),
            forall|j: int| 0 <= j < dims@.len() ==> (#[trigger] dims@[j]).wf(),
            offset == max_height(dims@.take(i as int)),
            0 <= offset <= MAX_GLYPH_EXTENT,
    {
        proof {
            assert(dims@.take(i + 1).drop_last() =~= dims@.take(i as int));
            assert(dims@.take(i + 1).last() == dims@[i as int]);
        }
        if dims[i].height > offset {
            offset = dims[i].height;
        }
    }
    proof {
        assert(dims@.take(n as int) =~= dims@);
    }
    let y: i64 = pos.y + offset;
    let mut x: i64 = pos.x;
    let mut out: Vec<GlyphInstance> = Vec::new();
    proof {
        assert(dims@.take(0) =~= Seq::<GlyphMetrics>::empty());
        assert(out@ =~= positioned_glyphs(indices@, dims@, pos).take(0));
    }
    for i in 0..n
        invariant
            n == dims@.len(),
            n <= MAX_TEXT_LEN,
            indices@.len() == dims@.len(),
            forall|j: int| 0 <= j < dims@.len() ==> (#[trigger] dims@[j]).wf(),
            pos.wf(),
            0 <= offset <= MAX_GLYPH_EXTENT,
            y == pos.y + max_height(dims@),
            x == pos.x + advance_sum(dims@.take(i as int)),
            pos.x <= x <= pos.x + i * MAX_GLYPH_EXTENT,
            out@ == positioned_glyphs(indices@, dims@, pos).take(i as int),
            out@.len() == i,
    {
        proof {
            assert(dims@.take(i + 1).drop_last() =~= dims@.take(i as int));
            assert(dims@.take(i + 1).last() == dims@[i as int]);
            assert(i * MAX_GLYPH_EXTENT + MAX_GLYPH_EXTENT == (i + 1) * MAX_GLYPH_EXTENT)
                by (nonlinear_arith);
            assert(i * MAX_GLYPH_EXTENT <= MAX_TEXT_LEN * MAX_GLYPH_EXTENT) by (nonlinear_arith)
                requires 0 <= i <= MAX_TEXT_LEN
            ;
        }
        out.push(GlyphInstance { index: indices[i], point: LayoutPoint { x, y } });
        x = x + dims[i].advance;
        proof {
            assert(positioned_glyphs(indices@, dims@, pos).take(i + 1) =~= positioned_glyphs(
                indices@,
                dims@,
                pos,
            ).take(i as int).push(positioned_glyphs(indices@, dims@, pos)[i as int]));
        }
    }
    proof {
        assert(positioned_glyphs(indices@, dims@, pos).take(n as int) =~= positioned_glyphs(
            indices@,
            dims@,
            pos,
        ));
    }
    out
}

/// Element-wise equality of two character buffers.
pub fn chars_eq(a: &Vec<char>, b: &Vec<char>) -> (r: bool)
    ensures
        r == (a@ == b@),
{
    if a.len() != b.len() {
        proof {
            assert(a@ != b@);
        }
        return false;
    }
    let n: usize = a.len();
    for i in 0..n
        invariant
            n == a@.len(),
            a@.len() == b@.len(),
            forall|j: int| 0 <= j < i ==> a@[j] == #[trigger] b@[j],
    {
        if a[i] != b[i] {
            proof {
                assert(a@[i as int] != b@[i as int]);
            }
            return false;
        }
    }
    proof {
        assert(a@ =~= b@);
    }
    true
}

} // verus!
