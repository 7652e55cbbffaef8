use flexlay::alignment::CrossAxisAlignment;
use flexlay::axis::Axis;
use flexlay::child::{Child, FlexParams};
use flexlay::constraints::BoxConstraints;
use flexlay::element::Element;
use flexlay::flex::Flex;
use flexlay::geom::{Point, Rect, Size, Vec2, UNBOUNDED};
use flexlay::views::{fork, task_raw};

#[test]
fn axis_projections() {
    let size = Size::new(3, 4);
    assert_eq!(Axis::Horizontal.major(size), 3);
    assert_eq!(Axis::Horizontal.minor(size), 4);
    assert_eq!(Axis::Vertical.major(size), 4);
    assert_eq!(Axis::Vertical.minor(size), 3);

    assert_eq!(Axis::Horizontal.cross(), Axis::Vertical);
    assert_eq!(Axis::Vertical.cross(), Axis::Horizontal);
    assert_eq!(Axis::Horizontal.cross().cross(), Axis::Horizontal);

    let rect = Rect { x0: 1, y0: 2, x1: 5, y1: 9 };
    assert_eq!(Axis::Horizontal.major_span(rect), (1, 5));
    assert_eq!(Axis::Horizontal.minor_span(rect), (2, 9));
    assert_eq!(Axis::Vertical.major_span(rect), (2, 9));

    let pos = Point::new(7, 8);
    assert_eq!(Axis::Horizontal.major_pos(pos), 7);
    assert_eq!(Axis::Vertical.major_pos(pos), 8);
    assert_eq!(Axis::Horizontal.minor_pos(pos), 8);
    assert_eq!(Axis::Vertical.minor_pos(pos), 7);

    let vec = Vec2 { x: 11, y: 12 };
    assert_eq!(Axis::Horizontal.major_vec(vec), 11);
    assert_eq!(Axis::Vertical.major_vec(vec), 12);
    assert_eq!(Axis::Horizontal.minor_vec(vec), 12);
    assert_eq!(Axis::Vertical.minor_vec(vec), 11);

    assert_eq!(Axis::Horizontal.pack(1, 2), (1, 2));
    assert_eq!(Axis::Vertical.pack(1, 2), (2, 1));
}

#[test]
fn constraint_operations() {
    let bc = BoxConstraints::new(Size::new(10, 20), Size::new(100, 200));
    assert_eq!(bc.min(), Size::new(10, 20));
    assert_eq!(bc.max(), Size::new(100, 200));
    assert!(bc.is_width_bounded());
    assert!(bc.is_height_bounded());

    assert_eq!(bc.constrain(Size::new(5, 300)), Size::new(10, 200));
    assert_eq!(bc.constrain(Size::new(50, 50)), Size::new(50, 50));

    let loose = bc.loosen();
    assert_eq!(loose.min(), Size::new(0, 0));
    assert_eq!(loose.max(), Size::new(100, 200));

    let shrunk = bc.shrink(30, 250);
    assert_eq!(shrunk.max(), Size::new(70, 0));
    assert_eq!(shrunk.min(), Size::new(10, 0));

    let unbounded = BoxConstraints::new(Size::new(0, 0), Size::new(UNBOUNDED, 50));
    assert!(!unbounded.is_width_bounded());
    assert!(unbounded.is_height_bounded());
    assert_eq!(unbounded.constrain(Size::new(1000, 1000)), Size::new(1000, 50));
}

#[test]
fn baseline_row_alignment() {
    // two children of heights 20 and 30, baselines 5 and 10, aligned on the
    // baseline in a row: the taller above-baseline extent wins
    let mut flex = Flex::row()
        .gap(0)
        .cross_axis_alignment(CrossAxisAlignment::Baseline)
        .with_child(Element::new(Size::new(10, 20), 5))
        .with_child(Element::new(Size::new(10, 30), 10));

    let bc = BoxConstraints::new(Size::new(0, 0), Size::new(100, 100));
    let out = flex.layout(&bc);

    // max above baseline 20, max below baseline 10: minor extent 30
    assert_eq!(out.size.height, 30);
    // the container's baseline is the deepest below-baseline extent
    assert_eq!(out.baseline, 10);
    let (y0, y1) = match (&flex.children[0], &flex.children[1]) {
        (Child::Fixed { widget: w0, .. }, Child::Fixed { widget: w1, .. }) => {
            (w0.origin.y, w1.origin.y)
        }
        _ => unreachable!(),
    };
    // both baselines meet at 20 pixels from the top
    assert_eq!(y0 + 20 - 5, 20);
    assert_eq!(y1 + 30 - 10, 20);
}

#[test]
fn cross_alignment_offsets() {
    let make = |al: CrossAxisAlignment| -> Flex {
        Flex::row()
            .gap(0)
            .cross_axis_alignment(al)
            .with_child(Element::new(Size::new(10, 30), 0))
            .with_child(Element::new(Size::new(10, 10), 0))
    };
    let bc = BoxConstraints::new(Size::new(0, 0), Size::new(100, 100));

    let mut start = make(CrossAxisAlignment::Start);
    start.layout(&bc);
    let mut center = make(CrossAxisAlignment::Center);
    center.layout(&bc);
    let mut end = make(CrossAxisAlignment::End);
    end.layout(&bc);
    let mut fill = make(CrossAxisAlignment::Fill);
    fill.layout(&bc);

    let second_y = |f: &Flex| -> i64 {
        match &f.children[1] {
            Child::Fixed { widget, .. } => widget.origin.y,
            _ => unreachable!(),
        }
    };
    let second_size = |f: &Flex| -> Size {
        match &f.children[1] {
            Child::Fixed { widget, .. } => widget.size,
            _ => unreachable!(),
        }
    };
    assert_eq!(second_y(&start), 0);
    assert_eq!(second_y(&center), 10);
    assert_eq!(second_y(&end), 20);
    assert_eq!(second_y(&fill), 0);
    // fill re-measures the smaller child to the full minor extent
    assert_eq!(second_size(&fill), Size::new(10, 30));
}

#[test]
fn zero_weight_parameters_fall_back_to_fixed() {
    let params = FlexParams::new(Some(0), None);
    let mut flex = Flex::row().gap(0).with_flex_child(
        Element::new(Size::new(40, 10), 0),
        params,
    );
    let bc = BoxConstraints::new(Size::new(0, 0), Size::new(200, 100));
    let out = flex.layout(&bc);
    // the child behaves as fixed, and with no flexible weight the container
    // hugs its content instead of filling the 200 offered pixels
    assert!(matches!(flex.children[0], Child::Fixed { .. }));
    assert_eq!(out.size.width, 40);
}

#[test]
fn padding_and_border_grow_the_container() {
    let mut flex = Flex::row().gap(0).with_child(Element::new(Size::new(40, 10), 0));
    flex.set_border_width(2);
    flex.set_padding(flexlay::flex::Padding { left: 3, right: 4, top: 5, bottom: 6 });
    let bc = BoxConstraints::new(Size::new(0, 0), Size::new(200, 100));
    let out = flex.layout(&bc);
    assert_eq!(out.size, Size::new(40 + 2 + 2 + 3 + 4, 10 + 2 + 2 + 5 + 6));
    // the child is pushed inside the insets
    match &flex.children[0] {
        Child::Fixed { widget, .. } => assert_eq!(widget.origin, Point::new(5, 7)),
        _ => unreachable!(),
    }
}

#[test]
fn unbounded_major_axis_keeps_children_finite() {
    let mut flex = Flex::row().gap(0).with_child(Element::new(Size::new(30, 10), 0))
        .with_flex_child(Element::new(Size::new(40, 10), 0), FlexParams::new(Some(1), None));
    let bc = BoxConstraints::new(Size::new(0, 0), Size::new(UNBOUNDED, 100));
    let out = flex.layout(&bc);
    // the flexible child is measured against the loosened envelope: its own
    // preferred width
    match &flex.children[1] {
        Child::Flex { widget, .. } => assert_eq!(widget.size, Size::new(40, 10)),
        _ => unreachable!(),
    }
    // the container itself reports the unbounded extent it was asked to fill
    assert_eq!(out.size.width, UNBOUNDED);
}

#[test]
fn view_descriptions_hold_their_parts() {
    let f = fork(3u32, "aside");
    assert_eq!(f.active_view, 3);
    assert_eq!(f.alongside_view, "aside");

    let t = task_raw::<_, _, u8>(17u64, 5i32);
    assert_eq!(t.init_future, 17);
    assert_eq!(t.on_event, 5);
}
