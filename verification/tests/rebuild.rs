//! Centering insets, stateful rebuilds, and the window entry points.

use yalem::canvas::{Canvas, DrawCmd};
use yalem::style::{Align, Color};
use yalem::widgets::{
    ButtonBuilder, CenterBuilder, Direction, ListBuilder, Rebuilds, Stateful, StateContext,
    TextBuilder,
};
use yalem::{App, Context, MouseButton, Widget, Window, YalemEvent, YalemMouse};

fn text(s: &str) -> Widget {
    Widget::Text(TextBuilder::new(s).build())
}

fn left_press(x: i64, y: i64) -> YalemEvent {
    YalemEvent::YalemMouse(YalemMouse::Pressed { button: MouseButton::Left, x, y })
}

#[test]
fn center_both_derives_half_insets_on_draw() {
    // After a draw with context width 100 and height 50 on both axes, the
    // derived insets are (50, 50, 25, 25) for (left, right, top, bottom).
    let subs = Rebuilds::new();
    let c = CenterBuilder::new().child(text("Hi")).direction(Direction::Both).build();
    let mut w = Widget::Center(c);
    let mut canvas = Canvas::new();
    w.draw(&subs, Context::new(0, 0, 100, 50), &mut canvas);
    match &w {
        Widget::Center(c) => {
            assert_eq!(
                (c.child.left, c.child.right, c.child.top, c.child.bottom),
                (50, 50, 25, 25),
            );
        },
        _ => panic!("unexpected widget"),
    }
}

#[test]
fn center_horizontal_keeps_vertical_insets() {
    let subs = Rebuilds::new();
    let c = CenterBuilder::new().child(text("Hi")).direction(Direction::Horizontal).build();
    let mut w = Widget::Center(c);
    let mut canvas = Canvas::new();
    w.draw(&subs, Context::new(0, 0, 80, 60), &mut canvas);
    match &w {
        Widget::Center(c) => {
            assert_eq!(
                (c.child.left, c.child.right, c.child.top, c.child.bottom),
                (40, 40, 0, 0),
            );
        },
        _ => panic!("unexpected widget"),
    }
}

#[test]
fn center_measurement_reflects_the_previous_draw() {
    // Before any draw the owned padding still has zero insets, so the
    // centered measurement equals the child's; after a draw it includes the
    // derived insets.  This is the documented exception to measuring purity:
    // callers must draw before trusting a centered measurement.
    let subs = Rebuilds::new();
    let c = CenterBuilder::new().child(text("Hi")).direction(Direction::Both).build();
    let mut w = Widget::Center(c);
    let ctx = Context::new(0, 0, 100, 50);
    assert_eq!(w.get_size(&subs, ctx), (12, 12));

    let mut canvas = Canvas::new();
    w.draw(&subs, ctx, &mut canvas);
    // Insets (50, 50, 25, 25): the child is left a 0-wide, 0-tall box, so
    // the text clamps to width 0 with doubled height 24, plus the insets.
    assert_eq!(w.get_size(&subs, ctx), (100, 74));
}

#[test]
fn stateful_measures_as_the_rebuilt_subtree() {
    let mut subs = Rebuilds::new();
    subs.insert(1, text("Hi"));
    let w = Widget::Stateful(Stateful::new(1));
    assert_eq!(w.get_size(&subs, Context::new(0, 0, 100, 100)), (12, 12));
}

#[test]
fn stateful_without_entry_is_an_empty_box() {
    let subs = Rebuilds::new();
    let w = Widget::Stateful(Stateful::new(9));
    assert_eq!(w.get_size(&subs, Context::new(0, 0, 100, 100)), (0, 0));
    let mut w = w;
    let mut canvas = Canvas::new();
    w.draw(&subs, Context::new(0, 0, 100, 100), &mut canvas);
    assert_eq!(canvas.cmds.len(), 0);
    let mut fired: Vec<u64> = Vec::new();
    w.send_event(&subs, &left_press(0, 0), &mut fired);
    assert_eq!(fired, Vec::<u64>::new());
}

#[test]
fn stateful_subtree_is_rebuilt_every_pass() {
    // The engine consults the pass table on every call: filing a different
    // subtree under the same key changes the next pass without touching the
    // tree itself.
    let w = Widget::Stateful(Stateful::new(1));
    let ctx = Context::new(0, 0, 100, 100);

    let mut first = Rebuilds::new();
    first.insert(1, text("a"));
    assert_eq!(w.get_size(&first, ctx), (6, 12));

    let mut second = Rebuilds::new();
    second.insert(1, text("abcd"));
    assert_eq!(w.get_size(&second, ctx), (24, 12));
}

#[test]
fn stateful_draw_records_but_discards_the_subtree() {
    // A button drawn inside a rebuilt subtree paints, but its hit rectangle
    // dies with the discarded subtree: the next dispatch sees the freshly
    // filed button with its empty rectangle again.
    let mut subs = Rebuilds::new();
    subs.insert(
        1,
        Widget::Button(ButtonBuilder::new().width(80).height(20).on_click(5).build()),
    );
    let mut w = Widget::Stateful(Stateful::new(1));
    let mut canvas = Canvas::new();
    w.draw(&subs, Context::new(0, 0, 300, 300), &mut canvas);
    assert_eq!(canvas.cmds.len(), 1);

    let mut fired: Vec<u64> = Vec::new();
    w.send_event(&subs, &left_press(10, 10), &mut fired);
    assert_eq!(fired, Vec::<u64>::new());
}

#[test]
fn state_context_is_an_opaque_handle() {
    let _handle = StateContext::new();
    let s = Stateful::new(42);
    assert_eq!(s.render, 42);
}

#[test]
fn rebuilds_first_entry_wins() {
    let mut subs = Rebuilds::new();
    subs.insert(1, text("ab"));
    subs.insert(1, text("abcdef"));
    let w = Widget::Stateful(Stateful::new(1));
    assert_eq!(w.get_size(&subs, Context::new(0, 0, 100, 100)), (12, 12));
}

#[test]
fn window_draw_builds_root_context_from_surface_size() {
    let subs = Rebuilds::new();
    let mut window = Window::new().with_title("demo").root(Widget::Expand(
        yalem::widgets::ExpandBuilder::new().build(),
    ));
    assert_eq!(window.title, "demo");
    let mut canvas = Canvas::new();
    window.draw(300, 200, &subs, &mut canvas);
    assert_eq!(canvas.cmds.len(), 0);

    let mut window = Window::new().root(text("Hi"));
    window.draw(300, 200, &subs, &mut canvas);
    assert_eq!(canvas.cmds.len(), 1);
    match canvas.cmd(0) {
        DrawCmd::Text { x, y, align, .. } => {
            assert_eq!((*x, *y), (0, 9));
            assert_eq!(*align, Align::Left);
        },
        other => panic!("unexpected primitive {:?}", other),
    }
}

#[test]
fn window_dispatch_forwards_to_root() {
    let subs = Rebuilds::new();
    let mut window = Window::new().root(Widget::Button(
        ButtonBuilder::new().width(80).height(20).on_click(11).build(),
    ));
    let mut canvas = Canvas::new();
    window.draw(300, 300, &subs, &mut canvas);
    let fired = window.send_event(&subs, &left_press(40, 10));
    assert_eq!(fired, vec![11]);

    let empty = Window::new();
    assert_eq!(empty.send_event(&subs, &left_press(0, 0)), Vec::<u64>::new());
}

#[test]
fn app_collects_windows_in_order() {
    let app = App::new()
        .with_window(Window::new().with_title("a"))
        .with_window(Window::new().with_title("b"));
    let windows = app.into_windows();
    assert_eq!(windows.len(), 2);
    assert_eq!(windows[0].title, "a");
    assert_eq!(windows[1].title, "b");
}

#[test]
fn well_formedness_checks_required_children() {
    let good = Widget::Padding(
        yalem::widgets::PaddingBuilder::new((1, 1, 1, 1)).child(text("x")).build(),
    );
    assert!(good.is_well_formed());

    let bad = Widget::Padding(yalem::widgets::PaddingBuilder::new((1, 1, 1, 1)).build());
    assert!(!bad.is_well_formed());

    let bad_center = Widget::Center(CenterBuilder::new().build());
    assert!(!bad_center.is_well_formed());

    let mut subs = Rebuilds::new();
    subs.insert(1, text("ok"));
    assert!(subs.is_well_formed());
    subs.insert(2, Widget::Stateful(Stateful::new(3)));
    assert!(!subs.is_well_formed());

    assert!(Widget::Stateful(Stateful::new(1)).contains_stateful());
    assert!(!text("x").contains_stateful());
    let l = ListBuilder::new().child(Widget::Stateful(Stateful::new(1))).build();
    assert!(Widget::List(l).contains_stateful());
}

#[test]
fn colors_carry_their_channels() {
    assert_eq!(Color::from_rgb(1, 2, 3), Color::from_argb(255, 1, 2, 3));
    let c = Color::from_argb(9, 8, 7, 6);
    assert_eq!((c.a, c.r, c.g, c.b), (9, 8, 7, 6));
    assert_ne!(Color::transparent(), Color::black());
}

#[test]
fn text_builder_setters_chain() {
    let t = TextBuilder::new("abc")
        .color(Color::green())
        .align(Align::Center)
        .build();
    assert_eq!(t.text, "abc");
    assert_eq!(t.color, Color::green());
    assert_eq!(t.align, Align::Center);

    let t = TextBuilder::new("abc").set_align(Align::Right).build();
    assert_eq!(t.align, Align::Right);
}
