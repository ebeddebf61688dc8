use retained_ui::component::{Component, build_display_list};
use retained_ui::counter::{CounterReducer, Message, ToDecimalText};
use retained_ui::display::{DisplayListBuilder, DrawCommand, HitTag, SpaceAndClipInfo};
use retained_ui::geometry::{Color, HandyDandyRectBuilder, LayoutPoint, LayoutRect, LayoutSize};
use retained_ui::shaper::{FontInstanceKey, FontKey, GlyphMetrics, ImageKey, TableShaper};
use retained_ui::state::{ImmutableStore, Store};
use retained_ui::text::{GlyphInstance, LayoutedText};
use retained_ui::widget::{
    DynamicLabel, Group, Rect, Root, StaticLabel, WebrenderRenderData, WebrenderUpdateContext,
    Widget,
};

type CounterStore = ImmutableStore<CounterReducer>;

fn digit_shaper() -> TableShaper {
    let mut sh = TableShaper::new();
    let digits = ['0', '1', '2', '3', '4', '5', '6', '7', '8', '9'];
    for (i, c) in digits.iter().enumerate() {
        let glyph = 100 + i as u32;
        sh.insert_char(*c, glyph);
        sh.insert_metrics(glyph, GlyphMetrics::new(10, 12, 2));
    }
    sh
}

fn ctx() -> WebrenderUpdateContext<TableShaper> {
    WebrenderUpdateContext::new(
        digit_shaper(),
        FontKey { id: 1 },
        FontInstanceKey { id: 2 },
        ImageKey { id: 3 },
    )
}

fn rd() -> WebrenderRenderData {
    WebrenderRenderData::new(SpaceAndClipInfo::root_scroll(0))
}

#[test]
fn rect_emits_exactly_one_command() {
    let area = (0i64, 0i64).to(100, 100);
    let rect = Rect::new(area, Color::new(1, 0, 0, 1));
    let mut builder = DisplayListBuilder::new();
    rect.draw(&mut builder, &rd());
    assert_eq!(builder.commands.len(), 1);
    assert_eq!(
        builder.commands[0],
        DrawCommand::Rect {
            area: LayoutRect {
                origin: LayoutPoint { x: 0, y: 0 },
                size: LayoutSize { w: 100, h: 100 },
            },
            space_clip: SpaceAndClipInfo::root_scroll(0),
            color: Color { r: 1, g: 0, b: 0, a: 1 },
        }
    );
}

#[test]
fn rect_update_is_a_no_op() {
    let store = CounterStore::new(0, CounterReducer);
    let mut context = ctx();
    let mut rect = Rect::new((0i64, 0i64).to(100, 100), Color::new(1, 0, 0, 1));
    let before = rect;
    rect.update(&mut context, &store);
    assert_eq!(rect, before);
    assert_eq!(context.shaper.index_query_count(), 0);
    assert_eq!(context.shaper.metrics_query_count(), 0);
}

#[test]
fn static_label_draws_its_cached_run() {
    let mut sh = digit_shaper();
    let t = LayoutedText::new(
        vec!['4', '2'],
        FontKey { id: 1 },
        FontInstanceKey { id: 2 },
        &mut sh,
    );
    let label = StaticLabel::new(t, LayoutPoint { x: 5, y: 7 }, Color::new(0, 0, 255, 255));
    let mut builder = DisplayListBuilder::new();
    label.draw(&mut builder, &rd());
    assert_eq!(builder.commands.len(), 1);
    match &builder.commands[0] {
        DrawCommand::Text { area, hit_info, glyphs, inst_key, color, .. } => {
            // Two glyphs of advance 10; extent 2 * 12 - 2.
            assert_eq!(
                *area,
                LayoutRect {
                    origin: LayoutPoint { x: 5, y: 7 },
                    size: LayoutSize { w: 20, h: 22 },
                }
            );
            assert_eq!(*hit_info, Some(HitTag { tag: 0, sub: 1 }));
            assert_eq!(
                *glyphs,
                vec![
                    GlyphInstance { index: 104, point: LayoutPoint { x: 5, y: 19 } },
                    GlyphInstance { index: 102, point: LayoutPoint { x: 15, y: 19 } },
                ]
            );
            assert_eq!(*inst_key, FontInstanceKey { id: 2 });
            assert_eq!(*color, Color { r: 0, g: 0, b: 255, a: 255 });
        }
        other => panic!("expected a text command, got {:?}", other),
    }
}

#[test]
fn dynamic_label_lays_out_once_per_distinct_text() {
    let mut store = CounterStore::new(0, CounterReducer);
    let mut context = ctx();
    let mut label = DynamicLabel::new(
        store.selector(ToDecimalText),
        LayoutPoint { x: 0, y: 0 },
        Color::new(255, 0, 0, 255),
    );

    label.update(&mut context, &store);
    assert_eq!(context.shaper.index_query_count(), 1);

    // Same text: the second and third updates must not re-invoke the
    // shaping collaborator.
    label.update(&mut context, &store);
    label.update(&mut context, &store);
    assert_eq!(context.shaper.index_query_count(), 1);
    assert_eq!(context.shaper.metrics_query_count(), 1);

    // A state change makes the derived text differ: exactly one more
    // layout.
    store.update(Message::Incr);
    label.update(&mut context, &store);
    assert_eq!(context.shaper.index_query_count(), 2);
    assert_eq!(context.shaper.metrics_query_count(), 2);
}

#[test]
fn counter_scenario_drives_the_label() {
    let mut store = CounterStore::new(0, CounterReducer);
    let mut context = ctx();
    let mut label = DynamicLabel::new(
        store.selector(ToDecimalText),
        LayoutPoint { x: 0, y: 0 },
        Color::new(255, 0, 0, 255),
    );

    for _ in 0..3 {
        store.update(Message::Incr);
        label.update(&mut context, &store);
    }

    // The selector projecting "to text" yields "3".
    let sel = store.selector(ToDecimalText);
    assert_eq!(sel.select(&store), vec!['3']);

    // One layout per distinct value "1", "2", "3".
    assert_eq!(context.shaper.index_query_count(), 3);
    assert_eq!(context.shaper.metrics_query_count(), 3);

    // The drawn bounding rectangle matches the layout computed for "3".
    let mut builder = DisplayListBuilder::new();
    label.draw(&mut builder, &rd());
    assert_eq!(builder.commands.len(), 1);
    match &builder.commands[0] {
        DrawCommand::Text { area, glyphs, .. } => {
            assert_eq!(
                *area,
                LayoutRect {
                    origin: LayoutPoint { x: 0, y: 0 },
                    size: LayoutSize { w: 10, h: 22 },
                }
            );
            assert_eq!(
                *glyphs,
                vec![GlyphInstance { index: 103, point: LayoutPoint { x: 0, y: 12 } }]
            );
        }
        other => panic!("expected a text command, got {:?}", other),
    }
}

#[test]
fn events_leave_widgets_unchanged() {
    let mut rect = Rect::new((0i64, 0i64).by(10, 10), Color::new(1, 2, 3, 4));
    let before = rect;
    <Rect as Component<
        CounterStore,
        TableShaper,
        WebrenderRenderData,
        retained_ui::widget::WebrenderEvent,
    >>::handle_event(&mut rect, retained_ui::widget::WebrenderEvent::Reserved);
    assert_eq!(rect, before);
}

fn colored_rect(x: i64, c: Color) -> Widget<ToDecimalText> {
    Widget::Rect(Rect::new((x, 0i64).by(10, 10), c))
}

fn command_colors(builder: &DisplayListBuilder) -> Vec<Color> {
    builder
        .commands
        .iter()
        .map(|c| match c {
            DrawCommand::Rect { color, .. } => *color,
            DrawCommand::Text { color, .. } => *color,
        })
        .collect()
}

#[test]
fn group_draws_children_in_insertion_order() {
    let red = Color::new(255, 0, 0, 255);
    let green = Color::new(0, 255, 0, 255);
    let blue = Color::new(0, 0, 255, 255);

    let mut group: Group<ToDecimalText> = Group::new();
    group.push(colored_rect(0, red));
    group.push(colored_rect(10, green));
    group.push(colored_rect(20, blue));

    let mut builder = DisplayListBuilder::new();
    group.draw(&mut builder, &rd());
    assert_eq!(command_colors(&builder), vec![red, green, blue]);

    // Reordering insertion changes the emitted order identically.
    let mut swapped: Group<ToDecimalText> = Group::new();
    swapped.push(colored_rect(10, green));
    swapped.push(colored_rect(0, red));
    swapped.push(colored_rect(20, blue));
    let mut builder2 = DisplayListBuilder::new();
    swapped.draw(&mut builder2, &rd());
    assert_eq!(command_colors(&builder2), vec![green, red, blue]);
}

#[test]
fn tree_updates_and_draws_through_root() {
    let red = Color::new(255, 0, 0, 255);
    let white = Color::new(255, 255, 255, 255);

    let mut store = CounterStore::new(0, CounterReducer);
    let mut context = ctx();

    let mut group: Group<ToDecimalText> = Group::new();
    group.push(colored_rect(0, white));
    group.push(Widget::DynamicLabel(DynamicLabel::new(
        store.selector(ToDecimalText),
        LayoutPoint { x: 30, y: 0 },
        red,
    )));
    let mut root = Root::new(Widget::Group(group));

    store.update(Message::Incr);
    root.update(&mut context, &store);
    assert_eq!(context.shaper.index_query_count(), 1);

    // Unchanged state: the tree-wide update does no layout work.
    root.update(&mut context, &store);
    assert_eq!(context.shaper.index_query_count(), 1);

    let mut builder = DisplayListBuilder::new();
    root.draw(&mut builder, &rd());
    assert_eq!(builder.commands.len(), 2);
    assert_eq!(command_colors(&builder), vec![white, red]);
    match &builder.commands[1] {
        DrawCommand::Text { glyphs, .. } => {
            assert_eq!(
                *glyphs,
                vec![GlyphInstance { index: 101, point: LayoutPoint { x: 30, y: 12 } }]
            );
        }
        other => panic!("expected a text command, got {:?}", other),
    }
}

#[test]
fn build_display_list_holds_exactly_the_tree_commands() {
    let red = Color::new(255, 0, 0, 255);
    let blue = Color::new(0, 0, 255, 255);
    let mut group: Group<ToDecimalText> = Group::new();
    group.push(colored_rect(0, red));
    group.push(colored_rect(10, blue));
    let root = Root::new(Widget::Group(group));
    let builder = build_display_list::<CounterStore, TableShaper, _, _, _>(&root, &rd());
    assert_eq!(command_colors(&builder), vec![red, blue]);
}

#[test]
fn nested_groups_flatten_in_order() {
    let red = Color::new(255, 0, 0, 255);
    let green = Color::new(0, 255, 0, 255);
    let blue = Color::new(0, 0, 255, 255);

    let mut inner: Group<ToDecimalText> = Group::new();
    inner.push(colored_rect(10, green));
    inner.push(colored_rect(20, blue));
    let mut outer: Group<ToDecimalText> = Group::new();
    outer.push(colored_rect(0, red));
    outer.push(Widget::Group(inner));

    let mut builder = DisplayListBuilder::new();
    outer.draw(&mut builder, &rd());
    assert_eq!(command_colors(&builder), vec![red, green, blue]);
}
