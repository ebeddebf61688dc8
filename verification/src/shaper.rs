//! The shaping collaborator: font handles, glyph metrics, and the trait
//! through which text layout resolves characters into glyphs.
//!
//! The host's font machinery is a service the core consumes but does not
//! implement. Here it appears as the [`Shaper`] trait: something that maps
//! characters to glyph indices and glyph indices to metrics, and counts how
//! often it is asked. [`TableShaper`] is the crate's own implementation,
//! backed by plain lookup tables, used by tests and by drivers that resolve
//! a font's glyphs up front.

use vstd::prelude::*;

use crate::geometry::MAX_GLYPH_EXTENT;

verus! {

/// An opaque handle naming a font face.
#[derive(Clone, Copy, PartialEq, Eq, Structural, Debug)]
pub struct FontKey {
    pub id: u64,
}

/// An opaque handle naming a font instance (a face at a size/variant).
#[derive(Clone, Copy, PartialEq, Eq, Structural, Debug)]
pub struct FontInstanceKey {
    pub id: u64,
}

/// An opaque handle naming an image resource.
#[derive(Clone, Copy, PartialEq, Eq, Structural, Debug)]
pub struct ImageKey {
    pub id: u64,
}

/// Metrics of one glyph: the horizontal advance to the next glyph, the
/// glyph's height, and the distance from its top to the baseline reference.
#[derive(Clone, Copy, PartialEq, Eq, Structural, Debug)]
pub struct GlyphMetrics {
    pub advance: i64,
    pub height: i64,
    pub top: i64,
}

impl GlyphMetrics {
    /// Sane metric ranges; everything a shaper resolves stays within them,
    /// which keeps all layout accumulation inside `i64`.
    pub open spec fn wf(self) -> bool {
        &&& 0 <= self.advance <= MAX_GLYPH_EXTENT
        &&& 0 <= self.height <= MAX_GLYPH_EXTENT
        &&& -MAX_GLYPH_EXTENT <= self.top <= MAX_GLYPH_EXTENT
    }

    pub fn new(advance: i64, height: i64, top: i64) -> (r: GlyphMetrics)
        ensures
            r == (GlyphMetrics { advance, height, top }),
    {
        GlyphMetrics { advance, height, top }
    }

    /// Runtime check of [`GlyphMetrics::wf`].
    pub fn is_wf(&self) -> (r: bool)
        ensures
            r == self.wf(),
    {
        0 <= self.advance && self.advance <= MAX_GLYPH_EXTENT && 0 <= self.height
            && self.height <= MAX_GLYPH_EXTENT && -MAX_GLYPH_EXTENT <= self.top
            && self.top <= MAX_GLYPH_EXTENT
    }
}

/// Two shapers resolve identically: same glyph for every character and
/// same metrics for every glyph. Shaping queries never change a shaper's
/// mapping, only its call counters.
pub open spec fn mapping_preserved<S: Shaper>(a: &S, b: &S) -> bool {
    &&& forall|f: FontKey, c: char| #[trigger] b.glyph_index_of(f, c) == a.glyph_index_of(f, c)
    &&& forall|k: FontInstanceKey, g: u32| #[trigger] b.metrics_of(k, g) == a.metrics_of(k, g)
}

/// A shaping collaborator: resolves characters of a font to glyph indices
/// and glyph indices of a font instance to metrics. A character or glyph
/// the shaper cannot resolve yields `None`. Resolution is a fixed mapping:
/// queries never change what the shaper would answer, and each bulk query
/// bumps the matching call counter by exactly one.
pub trait Shaper: Sized {
    /// The glyph index this shaper resolves `c` to under `font`, if any.
    spec fn glyph_index_of(&self, font: FontKey, c: char) -> Option<u32>;

    /// The metrics this shaper resolves glyph `g` to under `inst`, if any.
    spec fn metrics_of(&self, inst: FontInstanceKey, g: u32) -> Option<GlyphMetrics>;

    /// How many index queries have been made.
    spec fn index_calls(&self) -> nat;

    /// How many metrics queries have been made.
    spec fn metrics_calls(&self) -> nat;

    /// Resolves every character of `text` to its optional glyph index, in
    /// order, in one query.
    fn get_glyph_indices(&mut self, font: FontKey, text: &Vec<char>) -> (r: Vec<Option<u32>>)
        ensures
            r@.len() == text@.len(),
            forall|i: int|
                0 <= i < text@.len() ==> r@[i] == old(self).glyph_index_of(font, #[trigger] text@[i]),
            final(self).index_calls() == old(self).index_calls() + 1,
            final(self).metrics_calls() == old(self).metrics_calls(),
            forall|f: FontKey, c: char| #[trigger]
                final(self).glyph_index_of(f, c) == old(self).glyph_index_of(f, c),
            forall|k: FontInstanceKey, g: u32| #[trigger]
                final(self).metrics_of(k, g) == old(self).metrics_of(k, g),
    ;

    /// Resolves every glyph of `glyphs` to its optional metrics, in order,
    /// in one query. Resolved metrics are always well-formed.
    fn get_glyph_dimensions(&mut self, inst: FontInstanceKey, glyphs: &Vec<u32>) -> (r: Vec<
        Option<GlyphMetrics>,
    >)
        ensures
            r@.len() == glyphs@.len(),
            forall|i: int|
                0 <= i < glyphs@.len() ==> r@[i] == old(self).metrics_of(
                    inst,
                    #[trigger] glyphs@[i],
                ),
            forall|i: int|
                0 <= i < glyphs@.len() && r@[i] is Some ==> (#[trigger] r@[i])->0.wf(),
            final(self).metrics_calls() == old(self).metrics_calls() + 1,
            final(self).index_calls() == old(self).index_calls(),
            forall|f: FontKey, c: char| #[trigger]
                final(self).glyph_index_of(f, c) == old(self).glyph_index_of(f, c),
            forall|k: FontInstanceKey, g: u32| #[trigger]
                final(self).metrics_of(k, g) == old(self).metrics_of(k, g),
    ;
}

/// One character-to-glyph table entry.
#[derive(Clone, Copy, PartialEq, Eq, Structural, Debug)]
pub struct GlyphEntry {
    pub ch: char,
    pub glyph: u32,
}

/// One glyph-to-metrics table entry.
#[derive(Clone, Copy, PartialEq, Eq, Structural, Debug)]
pub struct MetricsEntry {
    pub glyph: u32,
    pub metrics: GlyphMetrics,
}

/// First match for `c` in a character table.
pub open spec fn char_lookup(entries: Seq<GlyphEntry>, c: char) -> Option<u32>
    decreases entries.len(),
{
    if entries.len() == 0 {
        None
    } else if entries.first().ch == c {
        Some(entries.first().glyph)
    } else {
        char_lookup(entries.drop_first(), c)
    }
}

/// First match for `g` in a metrics table; an entry with out-of-range
/// metrics is passed over as if it were absent.
pub open spec fn metrics_lookup(entries: Seq<MetricsEntry>, g: u32) -> Option<GlyphMetrics>
    decreases entries.len(),
{
    if entries.len() == 0 {
        None
    } else if entries.first().glyph == g && entries.first().metrics.wf() {
        Some(entries.first().metrics)
    } else {
        metrics_lookup(entries.drop_first(), g)
    }
}

/// A table-backed shaper: one font's character-to-glyph and
/// glyph-to-metrics mappings held as plain entries, with counters for the
/// queries made against it. The tables answer every font key alike, which
/// models a collaborator bound to a single font.
pub struct TableShaper {
    chars: Vec<GlyphEntry>,
    metrics: Vec<MetricsEntry>,
    index_queries: u64,
    metrics_queries: u64,
    ghost_index_queries: Ghost<nat>,
    ghost_metrics_queries: Ghost<nat>,
}

impl TableShaper {
    /// An empty shaper: resolves nothing, has been asked nothing.
    pub fn new() -> (r: TableShaper)
        ensures
            forall|f: FontKey, c: char| #[trigger] r.glyph_index_of(f, c) is None,
            forall|k: FontInstanceKey, g: u32| #[trigger] r.metrics_of(k, g) is None,
            r.index_calls() == 0,
            r.metrics_calls() == 0,
    {
        TableShaper {
            chars: Vec::new(),
            metrics: Vec::new(),
            index_queries: 0,
            metrics_queries: 0,
            ghost_index_queries: Ghost(0),
            ghost_metrics_queries: Ghost(0),
        }
    }

    /// Maps `c` to glyph `glyph`. A character already mapped keeps its
    /// first mapping; counters are untouched.
    pub fn insert_char(&mut self, c: char, glyph: u32)
        ensures
            forall|f: FontKey, c2: char| #[trigger]
                final(self).glyph_index_of(f, c2) == if c2 == c && old(self).glyph_index_of(
                    f,
                    c2,
                ) is None {
                    Some(glyph)
                } else {
                    old(self).glyph_index_of(f, c2)
                },
            forall|k: FontInstanceKey, g: u32| #[trigger]
                final(self).metrics_of(k, g) == old(self).metrics_of(k, g),
            final(self).index_calls() == old(self).index_calls(),
            final(self).metrics_calls() == old(self).metrics_calls(),
    {
        proof {
            let entries = self.chars@;
            let e = GlyphEntry { ch: c, glyph };
            assert forall|c2: char| #[trigger]
                char_lookup(entries.push(e), c2) == if c2 == c && char_lookup(
                    entries,
                    c2,
                ) is None {
                    Some(glyph)
                } else {
                    char_lookup(entries, c2)
                } by {
                lemma_char_lookup_push(entries, e, c2);
            }
        }
        self.chars.push(GlyphEntry { ch: c, glyph });
    }

    /// Maps glyph `glyph` to `m`. A glyph already mapped keeps its first
    /// mapping; out-of-range metrics are stored but resolve to nothing.
    pub fn insert_metrics(&mut self, glyph: u32, m: GlyphMetrics)
        ensures
            forall|k: FontInstanceKey, g2: u32| #[trigger]
                final(self).metrics_of(k, g2) == if g2 == glyph && old(self).metrics_of(
                    k,
                    g2,
                ) is None && m.wf() {
                    Some(m)
                } else {
                    old(self).metrics_of(k, g2)
                },
            forall|f: FontKey, c: char| #[trigger]
                final(self).glyph_index_of(f, c) == old(self).glyph_index_of(f, c),
            final(self).index_calls() == old(self).index_calls(),
            final(self).metrics_calls() == old(self).metrics_calls(),
    {
        proof {
            let entries = self.metrics@;
            let e = MetricsEntry { glyph, metrics: m };
            assert forall|g2: u32| #[trigger]
                metrics_lookup(entries.push(e), g2) == if g2 == glyph && metrics_lookup(
                    entries,
                    g2,
                ) is None && m.wf() {
                    Some(m)
                } else {
                    metrics_lookup(entries, g2)
                } by {
                lemma_metrics_lookup_push(entries, e, g2);
            }
        }
        self.metrics.push(MetricsEntry { glyph, metrics: m });
    }

    /// The number of index queries answered so far, as a machine counter.
    pub fn index_query_count(&self) -> u64 {
        self.index_queries
    }

    /// The number of metrics queries answered so far, as a machine counter.
    pub fn metrics_query_count(&self) -> u64 {
        self.metrics_queries
    }
}

/// Appending an entry leaves an already-resolved character as it was and
/// resolves the new character only if it was unresolved.
proof fn lemma_char_lookup_push(entries: Seq<GlyphEntry>, e: GlyphEntry, c: char)
    ensures
        char_lookup(entries.push(e), c) == if c == e.ch && char_lookup(entries, c) is None {
            Some(e.glyph)
        } else {
            char_lookup(entries, c)
        },
    decreases entries.len(),
{
    if entries.len() == 0 {
        assert(entries.push(e).first() == e);
        assert(entries.push(e).drop_first() =~= Seq::<GlyphEntry>::empty());
        assert(char_lookup(Seq::<GlyphEntry>::empty(), c) is None);
    } else {
        lemma_char_lookup_push(entries.drop_first(), e, c);
        assert(entries.push(e).first() == entries.first());
        assert(entries.push(e).drop_first() =~= entries.drop_first().push(e));
    }
}

/// Appending an entry leaves an already-resolved glyph as it was and
/// resolves the new glyph only if it was unresolved and its metrics are
/// well-formed.
proof fn lemma_metrics_lookup_push(entries: Seq<MetricsEntry>, e: MetricsEntry, g: u32)
    ensures
        metrics_lookup(entries.push(e), g) == if g == e.glyph && metrics_lookup(entries, g) is None
            && e.metrics.wf() {
            Some(e.metrics)
        } else {
            metrics_lookup(entries, g)
        },
    decreases entries.len(),
{
    if entries.len() == 0 {
        assert(entries.push(e).first() == e);
        assert(entries.push(e).drop_first() =~= Seq::<MetricsEntry>::empty());
        assert(metrics_lookup(Seq::<MetricsEntry>::empty(), g) is None);
    } else {
        lemma_metrics_lookup_push(entries.drop_first(), e, g);
        assert(entries.push(e).first() == entries.first());
        assert(entries.push(e).drop_first() =~= entries.drop_first().push(e));
    }
}

impl Shaper for TableShaper {
    closed spec fn glyph_index_of(&self, font: FontKey, c: char) -> Option<u32> {
        char_lookup(self.chars@, c)
    }

    closed spec fn metrics_of(&self, inst: FontInstanceKey, g: u32) -> Option<GlyphMetrics> {
        metrics_lookup(self.metrics@, g)
    }

    closed spec fn index_calls(&self) -> nat {
        self.ghost_index_queries@
    }

    closed spec fn metrics_calls(&self) -> nat {
        self.ghost_metrics_queries@
    }

    fn get_glyph_indices(&mut self, font: FontKey, text: &Vec<char>) -> (r: Vec<Option<u32>>) {
        let mut out: Vec<Option<u32>> = Vec::new();
        let n: usize = text.len();
        for i in 0..n
            invariant
                n == text@.len(),
                out@.len() == i,
                forall|j: int|
                    0 <= j < i ==> out@[j] == self.glyph_index_of(font, #[trigger] text@[j]),
                *self == *old(self),
        {
            let c = text[i];
            out.push(self.lookup_char(c));
        }
        if self.index_queries < u64::MAX {
            self.index_queries = self.index_queries + 1;
        }
        proof {
            self.ghost_index_queries@ = self.ghost_index_queries@ + 1;
        }
        out
    }

    fn get_glyph_dimensions(&mut self, inst: FontInstanceKey, glyphs: &Vec<u32>) -> (r: Vec<
        Option<GlyphMetrics>,
    >) {
        let mut out: Vec<Option<GlyphMetrics>> = Vec::new();
        let n: usize = glyphs.len();
        for i in 0..n
            invariant
                n == glyphs@.len(),
                out@.len() == i,
                forall|j: int|
                    0 <= j < i ==> out@[j] == self.metrics_of(inst, #[trigger] glyphs@[j]),
                forall|j: int| 0 <= j < i && out@[j] is Some ==> (#[trigger] out@[j])->0.wf(),
                *self == *old(self),
        {
            let g = glyphs[i];
            out.push(self.lookup_metrics(g));
        }
        if self.metrics_queries < u64::MAX {
            self.metrics_queries = self.metrics_queries + 1;
        }
        proof {
            self.ghost_metrics_queries@ = self.ghost_metrics_queries@ + 1;
        }
        out
    }
}

impl TableShaper {
    /// Linear scan of the character table; first match wins.
    fn lookup_char(&self, c: char) -> (r: Option<u32>)
        ensures
            r == char_lookup(self.chars@, c),
    {
        let n: usize = self.chars.len();
        proof {
            assert(self.chars@.skip(0) =~= self.chars@);
        }
        for i in 0..n
            invariant
                n == self.chars@.len(),
                char_lookup(self.chars@, c) == char_lookup(self.chars@.skip(i as int), c),
                forall|j: int| 0 <= j < i ==> (#[trigger] self.chars@[j]).ch != c,
        {
            proof {
                assert(self.chars@.skip(i as int).first() == self.chars@[i as int]);
                assert(self.chars@.skip(i as int).drop_first() =~= self.chars@.skip(i + 1));
            }
            if self.chars[i].ch == c {
                return Some(self.chars[i].glyph);
            }
        }
        proof {
            assert(self.chars@.skip(n as int) =~= Seq::<GlyphEntry>::empty());
        }
        None
    }

    /// Linear scan of the metrics table; first match wins, and a match
    /// with out-of-range metrics resolves to nothing.
    fn lookup_metrics(&self, g: u32) -> (r: Option<GlyphMetrics>)
        ensures
            r == metrics_lookup(self.metrics@, g),
            r is Some ==> r->0.wf(),
    {
        let n: usize = self.metrics.len();
        proof {
            assert(self.metrics@.skip(0) =~= self.metrics@);
        }
        for i in 0..n
            invariant
                n == self.metrics@.len(),
                metrics_lookup(self.metrics@, g) == metrics_lookup(
                    self.metrics@.skip(i as int),
                    g,
                ),
                forall|j: int|
                    0 <= j < i ==> !((#[trigger] self.metrics@[j]).glyph == g
                        && self.metrics@[j].metrics.wf()),
        {
            proof {
                assert(self.metrics@.skip(i as int).first() == self.metrics@[i as int]);
                assert(self.metrics@.skip(i as int).drop_first() =~= self.metrics@.skip(i + 1));
            }
            if self.metrics[i].glyph == g {
                let m = self.metrics[i].metrics;
                if m.is_wf() {
                    return Some(m);
                }
            }
        }
        proof {
            assert(self.metrics@.skip(n as int) =~= Seq::<MetricsEntry>::empty());
        }
        None
    }
}

} // verus!
