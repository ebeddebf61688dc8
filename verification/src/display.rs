//! The drawing context: a display-list builder that accumulates primitive
//! draw commands for one frame.
//!
//! Components never talk to the GPU; they append rectangle and glyph-run
//! commands here, in draw order, and the host submits the finished list.
//! The builder's view is the sequence of accumulated commands, so a drawing
//! function's contract can say exactly which commands it appends.

use vstd::prelude::*;

use crate::geometry::{Color, LayoutRect};
use crate::shaper::FontInstanceKey;
use crate::text::GlyphInstance;

verus! {

/// Frame-scoped addressing: which spatial node and clip chain a draw
/// command targets.
#[derive(Clone, Copy, PartialEq, Eq, Structural, Debug)]
pub struct SpaceAndClipInfo {
    pub spatial_id: u64,
    pub clip_id: u64,
}

impl SpaceAndClipInfo {
    /// The root scroll space of a pipeline.
    pub fn root_scroll(pipeline: u64) -> (r: SpaceAndClipInfo)
        ensures
            r == (SpaceAndClipInfo { spatial_id: pipeline, clip_id: pipeline }),
    {
        SpaceAndClipInfo { spatial_id: pipeline, clip_id: pipeline }
    }
}

/// A hit-testing tag: an item tag and a sub-tag, reported when the cursor
/// hits the command that carries it.
#[derive(Clone, Copy, PartialEq, Eq, Structural, Debug)]
pub struct HitTag {
    pub tag: u16,
    pub sub: u16,
}

/// Properties shared by draw commands: the clip rectangle, the addressing
/// space, and an optional hit-testing tag.
#[derive(Clone, Copy, PartialEq, Eq, Structural, Debug)]
pub struct CommonItemProperties {
    pub clip_rect: LayoutRect,
    pub space_clip: SpaceAndClipInfo,
    pub hit_info: Option<HitTag>,
}

impl CommonItemProperties {
    /// Common properties with no hit-testing tag.
    pub fn new(clip_rect: LayoutRect, space_clip: SpaceAndClipInfo) -> (r: CommonItemProperties)
        ensures
            r == (CommonItemProperties { clip_rect, space_clip, hit_info: None::<HitTag> }),
    {
        CommonItemProperties { clip_rect, space_clip, hit_info: None }
    }
}

/// One primitive draw command.
#[derive(PartialEq, Eq, Debug)]
pub enum DrawCommand {
    /// A filled rectangle.
    Rect { area: LayoutRect, space_clip: SpaceAndClipInfo, color: Color },
    /// A positioned glyph run.
    Text {
        area: LayoutRect,
        space_clip: SpaceAndClipInfo,
        hit_info: Option<HitTag>,
        glyphs: Vec<GlyphInstance>,
        inst_key: FontInstanceKey,
        color: Color,
    },
}

/// The mathematical value of a draw command; glyph runs appear as
/// sequences.
pub enum CommandView {
    Rect { area: LayoutRect, space_clip: SpaceAndClipInfo, color: Color },
    Text {
        area: LayoutRect,
        space_clip: SpaceAndClipInfo,
        hit_info: Option<HitTag>,
        glyphs: Seq<GlyphInstance>,
        inst_key: FontInstanceKey,
        color: Color,
    },
}

impl View for DrawCommand {
    type V = CommandView;

    open spec fn view(&self) -> CommandView {
        match self {
            DrawCommand::Rect { area, space_clip, color } => CommandView::Rect {
                area: *area,
                space_clip: *space_clip,
                color: *color,
            },
            DrawCommand::Text { area, space_clip, hit_info, glyphs, inst_key, color } => {
                CommandView::Text {
                    area: *area,
                    space_clip: *space_clip,
                    hit_info: *hit_info,
                    glyphs: glyphs@,
                    inst_key: *inst_key,
                    color: *color,
                }
            },
        }
    }
}

/// Accumulates one frame's draw commands, in the order they are pushed.
/// Later commands draw on top of earlier ones.
pub struct DisplayListBuilder {
    pub commands: Vec<DrawCommand>,
}

impl View for DisplayListBuilder {
    type V = Seq<CommandView>;

    open spec fn view(&self) -> Seq<CommandView> {
        self.commands@.map(|i: int, c: DrawCommand| c@)
    }
}

impl DisplayListBuilder {
    /// An empty command list.
    pub fn new() -> (r: DisplayListBuilder)
        ensures
            r@ =~= Seq::<CommandView>::empty(),
    {
        DisplayListBuilder { commands: Vec::new() }
    }

    /// Appends one filled rectangle covering the common clip rectangle.
    pub fn push_rect(&mut self, info: &CommonItemProperties, color: Color)
        ensures
            final(self)@ =~= old(self)@ + seq![
                CommandView::Rect {
                    area: info.clip_rect,
                    space_clip: info.space_clip,
                    color,
                },
            ],
    {
        self.commands.push(
            DrawCommand::Rect { area: info.clip_rect, space_clip: info.space_clip, color },
        );
        proof {
            assert(final(self).commands@.map(|i: int, c: DrawCommand| c@) =~= old(
                self,
            ).commands@.map(|i: int, c: DrawCommand| c@) + seq![
                CommandView::Rect { area: info.clip_rect, space_clip: info.space_clip, color },
            ]);
        }
    }

    /// Appends one glyph run with the given bounds, hit tag, font instance
    /// and color. The run is copied; the caller keeps its buffer.
    pub fn push_text(
        &mut self,
        info: &CommonItemProperties,
        area: LayoutRect,
        glyphs: &Vec<GlyphInstance>,
        inst_key: FontInstanceKey,
        color: Color,
    )
        ensures
            final(self)@ =~= old(self)@ + seq![
                CommandView::Text {
                    area,
                    space_clip: info.space_clip,
                    hit_info: info.hit_info,
                    glyphs: glyphs@,
                    inst_key,
                    color,
                },
            ],
    {
        let run = copy_glyphs(glyphs);
        self.commands.push(
            DrawCommand::Text {
                area,
                space_clip: info.space_clip,
                hit_info: info.hit_info,
                glyphs: run,
                inst_key,
                color,
            },
        );
        proof {
            assert(final(self).commands@.map(|i: int, c: DrawCommand| c@) =~= old(
                self,
            ).commands@.map(|i: int, c: DrawCommand| c@) + seq![
                CommandView::Text {
                    area,
                    space_clip: info.space_clip,
                    hit_info: info.hit_info,
                    glyphs: glyphs@,
                    inst_key,
                    color,
                },
            ]);
        }
    }
}

/// An element-wise copy of a glyph run.
fn copy_glyphs(src: &Vec<GlyphInstance>) -> (r: Vec<GlyphInstance>)
    ensures
        r@ == src@,
{
    let mut out: Vec<GlyphInstance> = Vec::new();
    let n: usize = src.len();
    for i in 0..n
        invariant
            n == src@.len(),
            out@ == src@.take(i as int),
    {
        out.push(src[i]);
        proof {
            assert(src@.take(i + 1) =~= src@.take(i as int).push(src@[i as int]));
        }
    }
    proof {
        assert(src@.take(n as int) =~= src@);
    }
    out
}

} // verus!
