use flexlay::child::Child;
use flexlay::constraints::BoxConstraints;
use flexlay::element::Element;
use flexlay::flex::{Flex, LayoutOutput};
use flexlay::geom::{Point, Size};

fn label(w: i64, h: i64) -> Element {
    Element::new(Size::new(w, h), 0)
}

fn origin_of(c: &Flex, idx: usize) -> Point {
    match &c.children[idx] {
        Child::Fixed { widget, .. } => widget.origin,
        Child::Flex { widget, .. } => widget.origin,
        _ => panic!("child {} is a spacer", idx),
    }
}

fn size_of(c: &Flex, idx: usize) -> Size {
    match &c.children[idx] {
        Child::Fixed { widget, .. } => widget.size,
        Child::Flex { widget, .. } => widget.size,
        _ => panic!("child {} is a spacer", idx),
    }
}

fn geometry(c: &Flex) -> Vec<(i64, i64, i64, i64)> {
    let mut out = Vec::new();
    for ch in c.children.iter() {
        match ch {
            Child::Fixed { widget, .. } | Child::Flex { widget, .. } => {
                out.push((widget.origin.x, widget.origin.y, widget.size.width, widget.size.height));
            }
            Child::FixedSpacer(len, computed) => out.push((-1, -1, *len, *computed)),
            Child::FlexedSpacer(flex, computed) => out.push((-2, -2, *flex, *computed)),
        }
    }
    out
}

fn window() -> BoxConstraints {
    BoxConstraints::tight(Size::new(200, 150))
}

#[test]
fn divide_by_zero() {
    let mut widget = Flex::column().with_flex_spacer(0);

    // Running layout should not panic when the flex sum is zero.
    let out = widget.layout(&window());
    assert!(out.size.width >= 0);
    assert!(out.size.height >= 0);
}

#[test]
fn get_flex_child() {
    let mut flex = Flex::column()
        .with_child_id(label(30, 10), 7)
        .with_child_id(label(40, 10), 8)
        .with_spacer(1);

    let child = flex.child_mut(1).unwrap();
    assert_eq!(child.id, 8);

    assert!(flex.child_mut(2).is_none());
}

#[test]
fn edit_flex_container() {
    // elements stand in for labels; each name keeps one fixed size
    let a = || label(10, 6);
    let c = || label(12, 7);
    let d = || label(14, 8);
    let i = || label(16, 9);
    let j = || label(18, 10);
    let x = || label(20, 11);
    let y = || label(22, 12);

    let geometry_1 = {
        let mut flex = Flex::column()
            .with_child(a())
            .with_child(label(11, 6))
            .with_child(c())
            .with_child(d());
        // -> abcd
        flex.remove_child(1);
        // -> acd
        flex.add_child(x());
        // -> acdx
        flex.add_flex_child(y(), flexlay::child::FlexParams::new(Some(2), None));
        // -> acdxy
        flex.add_default_spacer();
        // -> acdxy_
        flex.add_spacer(5);
        // -> acdxy__
        flex.add_flex_spacer(1);
        // -> acdxy___
        flex.insert_child(2, i());
        // -> acidxy___
        flex.insert_flex_child(2, j(), flexlay::child::FlexParams::new(Some(2), None));
        // -> acjidxy___
        flex.insert_default_spacer(2);
        // -> ac_jidxy___
        flex.insert_spacer(2, 5);
        // -> ac__jidxy___
        flex.insert_flex_spacer(2, 1);

        let out = flex.layout(&window());
        (out, geometry(&flex))
    };

    let geometry_2 = {
        let mut flex = Flex::column()
            .with_child(a())
            .with_child(c())
            .with_flex_spacer(1)
            .with_spacer(5)
            .with_default_spacer()
            .with_flex_child(j(), flexlay::child::FlexParams::new(Some(2), None))
            .with_child(i())
            .with_child(d())
            .with_child(x())
            .with_flex_child(y(), flexlay::child::FlexParams::new(Some(2), None))
            .with_default_spacer()
            .with_spacer(5)
            .with_flex_spacer(1);

        let out = flex.layout(&window());
        (out, geometry(&flex))
    };

    assert!(geometry_1 == geometry_2);
}

#[test]
fn end_to_end_row_allocation() {
    // fixed(50), flexible(weight 1), fixed(30), flexible(weight 2) in a row
    // with major-axis maximum 200 and gap 0
    let mut flex = Flex::row()
        .gap(0)
        .cross_axis_alignment(flexlay::alignment::CrossAxisAlignment::Start)
        .with_child(label(50, 20))
        .with_flex_child(label(1000, 20), flexlay::child::FlexParams::new(Some(1), None))
        .with_child(label(30, 20))
        .with_flex_child(label(1000, 20), flexlay::child::FlexParams::new(Some(2), None));

    let bc = BoxConstraints::new(Size::new(0, 0), Size::new(200, 100));
    let out = flex.layout(&bc);

    // fixed total 80, remaining 120, one pixel per weight is 40
    assert_eq!(size_of(&flex, 0).width, 50);
    assert_eq!(size_of(&flex, 1).width, 40);
    assert_eq!(size_of(&flex, 2).width, 30);
    assert_eq!(size_of(&flex, 3).width, 80);

    // placed left to right with no overlap, total extent exactly 200
    assert_eq!(origin_of(&flex, 0).x, 0);
    assert_eq!(origin_of(&flex, 1).x, 50);
    assert_eq!(origin_of(&flex, 2).x, 90);
    assert_eq!(origin_of(&flex, 3).x, 120);
    assert_eq!(out.size, Size::new(200, 20));
}

#[test]
fn fill_invariant_row() {
    // any flexible weight forces the container to consume the whole offered
    // major axis, even without must-fill
    let mut flex = Flex::row().gap(0).with_child(label(10, 10)).with_flex_child(
        label(5, 10),
        flexlay::child::FlexParams::new(Some(1), None),
    );
    let bc = BoxConstraints::new(Size::new(0, 0), Size::new(777, 100));
    let out = flex.layout(&bc);
    assert_eq!(out.size.width, 777);
}

#[test]
fn no_fill_no_extra_column() {
    // a vertical container that must not fill gets no extra space once its
    // own minimum is met, however much room is offered
    let mut flex = Flex::column().gap(0).must_fill_main_axis(false).with_child(
        label(40, 30),
    ).with_child(label(40, 20));

    let bc = BoxConstraints::new(Size::new(0, 0), Size::new(100, 300));
    let out = flex.layout(&bc);
    assert_eq!(out.size.height, 50);

    // with a minimum above the content, exactly the missing amount appears
    let mut flex2 = Flex::column().gap(0).must_fill_main_axis(false).with_child(
        label(40, 30),
    ).with_child(label(40, 20));
    let bc2 = BoxConstraints::new(Size::new(0, 60), Size::new(100, 300));
    let out2 = flex2.layout(&bc2);
    assert_eq!(out2.size.height, 60);
}

#[test]
fn layout_is_idempotent_without_mutation() {
    let mut flex = Flex::row()
        .gap(2)
        .with_child(label(50, 20))
        .with_flex_child(label(1000, 24), flexlay::child::FlexParams::new(Some(1), None))
        .with_spacer(5)
        .with_child(label(30, 10));

    let bc = BoxConstraints::new(Size::new(0, 0), Size::new(200, 100));
    let out1: LayoutOutput = flex.layout(&bc);
    let geo1 = geometry(&flex);
    let out2: LayoutOutput = flex.layout(&bc);
    let geo2 = geometry(&flex);
    assert!(out1 == out2);
    assert!(geo1 == geo2);
}

#[test]
fn centered_extra_space_pads_both_ends() {
    let mut flex = Flex::row()
        .gap(0)
        .must_fill_main_axis(true)
        .main_axis_alignment(flexlay::alignment::MainAxisAlignment::Center)
        .with_child(label(50, 10))
        .with_child(label(50, 10));
    let bc = BoxConstraints::new(Size::new(0, 0), Size::new(200, 100));
    let out = flex.layout(&bc);
    // 100 pixels of extra space: half before the first child, half after the
    // last, nothing in between
    assert_eq!(origin_of(&flex, 0).x, 50);
    assert_eq!(origin_of(&flex, 1).x, 100);
    assert_eq!(out.size.width, 200);
}

#[test]
fn space_between_extra_space_sits_between() {
    let mut flex = Flex::row()
        .gap(0)
        .must_fill_main_axis(true)
        .main_axis_alignment(flexlay::alignment::MainAxisAlignment::SpaceBetween)
        .with_child(label(40, 10))
        .with_child(label(40, 10))
        .with_child(label(40, 10));
    let bc = BoxConstraints::new(Size::new(0, 0), Size::new(200, 100));
    let out = flex.layout(&bc);
    // 80 extra pixels split across the two inner gaps
    assert_eq!(origin_of(&flex, 0).x, 0);
    assert_eq!(origin_of(&flex, 1).x, 80);
    assert_eq!(origin_of(&flex, 2).x, 160);
    assert_eq!(out.size.width, 200);
}

#[test]
fn params_from_weight_and_alignment() {
    let p = flexlay::child::FlexParams::from(3i64);
    assert_eq!(p.flex, Some(3));
    assert_eq!(p.alignment, None);

    let q = flexlay::child::FlexParams::from(flexlay::alignment::CrossAxisAlignment::End);
    assert_eq!(q.flex, None);
    assert_eq!(q.alignment, Some(flexlay::alignment::CrossAxisAlignment::End));

    // a non-positive weight is stored as zero
    let z = flexlay::child::FlexParams::from(-5i64);
    assert_eq!(z.flex, Some(0));
}

#[test]
fn mutation_invalidates_sibling_flex_allocation() {
    let mut flex = Flex::row().gap(0).with_child(label(50, 20)).with_flex_child(
        label(1000, 20),
        flexlay::child::FlexParams::new(Some(1), None),
    );
    let bc = BoxConstraints::new(Size::new(0, 0), Size::new(200, 100));
    flex.layout(&bc);
    assert_eq!(size_of(&flex, 1).width, 150);

    // the fixed child's content changes: it reports a new preferred size and
    // marks itself dirty; the flexible sibling's share must be recomputed
    match flex.child_mut(0) {
        Some(el) => {
            el.preferred = Size::new(80, 20);
            el.request_layout();
        }
        None => unreachable!(),
    }
    flex.needs_layout = true;
    flex.layout(&bc);
    assert_eq!(size_of(&flex, 0).width, 80);
    assert_eq!(size_of(&flex, 1).width, 120);

    // removing a child also re-runs the solve from the start
    flex.remove_child(0);
    flex.layout(&bc);
    assert_eq!(size_of(&flex, 0).width, 200);
}
