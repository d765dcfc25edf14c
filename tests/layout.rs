use ascii_ui::{
    AsciiBounds, AsciiGlobalBounds, AsciiPosition, HorizontalAlignment, LayoutTree, Padding, Value,
    VerticalAlignment,
};

fn parent_40_by_20() -> AsciiBounds {
    AsciiBounds::new(0, 0, 40, 20, 0)
}

#[test]
fn centered_box_in_parent() {
    let position = AsciiPosition::aligned(
        Value::Px(10),
        Value::Px(4),
        HorizontalAlignment::Center,
        VerticalAlignment::Center,
    );
    let bounds = position.create_bounds(&parent_40_by_20());
    assert_eq!(bounds, AsciiBounds::new(15, 8, 10, 4, 1));
}

#[test]
fn percent_sized_fill() {
    let position = AsciiPosition::relative(0, 0, Value::Percent(100), Value::Percent(100), 0);
    let bounds = position.create_bounds(&parent_40_by_20());
    assert_eq!(bounds.width, 40);
    assert_eq!(bounds.height, 20);
    assert_eq!(bounds.layer, 1);
}

#[test]
fn padding_exceeding_extent_keeps_prior_bounds() {
    let position = AsciiPosition::Padded {
        padding: Padding { top: 25, right: 0, bottom: 0, left: 0 },
    };
    let prior = AsciiBounds::new(3, 4, 5, 6, 7);
    let mut child = prior;
    position.format_bounds(&parent_40_by_20(), &mut child);
    assert_eq!(child, prior);
}

#[test]
fn padding_that_fits_shrinks_parent() {
    let position = AsciiPosition::Padded { padding: Padding::symmetric(2, 3) };
    let parent = AsciiBounds::new(1, 1, 40, 20, 2);
    let bounds = position.create_bounds(&parent);
    assert_eq!(bounds, AsciiBounds::new(4, 3, 34, 16, 3));
}

#[test]
fn aligned_sides_and_clamping() {
    let parent = AsciiBounds::new(5, 5, 10, 6, 0);
    let right = AsciiPosition::aligned(
        Value::Px(4),
        Value::Px(2),
        HorizontalAlignment::Right,
        VerticalAlignment::Bottom,
    )
    .create_bounds(&parent);
    assert_eq!(right, AsciiBounds::new(11, 9, 4, 2, 1));
    let too_big = parent.aligned(
        Value::Px(50),
        Value::Px(60),
        HorizontalAlignment::Center,
        VerticalAlignment::Center,
    );
    assert_eq!(too_big, AsciiBounds::new(5, 5, 10, 6, 1));
    let odd = parent.aligned(
        Value::Px(3),
        Value::Px(3),
        HorizontalAlignment::Center,
        VerticalAlignment::Center,
    );
    assert_eq!((odd.x, odd.y), (8, 6));
}

#[test]
fn containment_of_aligned_and_relative() {
    let parent = parent_40_by_20();
    for (w, h) in [(0, 0), (10, 4), (40, 20), (41, 21), (1000, 1000)] {
        let b = AsciiPosition::centered(Value::Px(w), Value::Px(h)).create_bounds(&parent);
        assert!(b.width <= 40 && b.height <= 20);
    }
    let b = AsciiPosition::relative(3, 3, Value::Percent(50), Value::Px(20), 2).create_bounds(&parent);
    assert_eq!((b.width, b.height), (20, 20));
}

#[test]
fn relative_layer_and_offset() {
    let parent = AsciiBounds::new(2, 3, 40, 20, 4);
    let b = AsciiPosition::relative(1, -1, Value::Px(5), Value::Px(-3), 2).create_bounds(&parent);
    assert_eq!(b, AsciiBounds::new(3, 2, 5, 0, 7));
    assert!(b.layer > parent.layer);
    let child = parent.relative(&AsciiBounds::new(1, 1, 2, 2, 0));
    assert_eq!(child, AsciiBounds::new(3, 4, 2, 2, 5));
}

#[test]
fn coordinates_saturate() {
    let parent = AsciiBounds::new(i32::MAX - 1, 0, 10, 10, u32::MAX);
    let b = AsciiPosition::relative(5, 0, Value::Px(1), Value::Px(1), 0).create_bounds(&parent);
    assert_eq!(b.x, i32::MAX);
    assert_eq!(b.layer, u32::MAX);
}

#[test]
fn value_resolution() {
    assert_eq!(Value::Px(-4).pixel_u32(10), 0);
    assert_eq!(Value::Px(7).pixel_u32(3), 7);
    assert_eq!(Value::Percent(50).pixel_u32(9), 4);
    assert_eq!(Value::Percent(0).pixel_u32(9), 0);
    assert_eq!(Value::Percent(250).pixel_u32(10), 25);
}

#[test]
fn is_within_includes_far_edges() {
    let b = AsciiBounds::new(2, 2, 3, 1, 0);
    assert!(b.is_within(2, 2));
    assert!(b.is_within(5, 3));
    assert!(!b.is_within(6, 3));
    assert!(!b.is_within(1, 2));
    assert!(b.is_within_local(3, 1));
    assert!(!b.is_within_local(-1, 0));
}

#[test]
fn bounds_helpers() {
    assert_eq!(AsciiBounds::from_dims(8, 9), AsciiBounds::new(0, 0, 8, 9, 0));
    assert_eq!(AsciiBounds::from_dims(8, 9).with_layer(3).layer, 3);
    let mut g = AsciiGlobalBounds::new(1, 2, 3, 4, 5);
    assert!(!g.is_dirty && !g.clip_bounds);
    g.set_from(&AsciiBounds::new(0, 0, 1, 1, 0));
    assert_eq!(g.bounds, AsciiBounds::new(0, 0, 1, 1, 0));
}

#[test]
fn position_shorthands() {
    let parent = parent_40_by_20();
    assert_eq!(AsciiPosition::top(Value::Px(3)).create_bounds(&parent), AsciiBounds::new(0, 0, 40, 3, 1));
    assert_eq!(AsciiPosition::bottom(Value::Px(3)).create_bounds(&parent), AsciiBounds::new(0, 17, 40, 3, 1));
    assert_eq!(AsciiPosition::left(Value::Px(5)).create_bounds(&parent), AsciiBounds::new(0, 0, 5, 20, 1));
    assert_eq!(AsciiPosition::right(Value::Px(5)).create_bounds(&parent), AsciiBounds::new(35, 0, 5, 20, 1));
    assert_eq!(AsciiPosition::fill().create_bounds(&parent), AsciiBounds::new(0, 0, 40, 20, 1));
}

fn sample_tree() -> (LayoutTree, usize, usize, usize) {
    let mut tree = LayoutTree::new();
    let root = tree.add_root(40, 20);
    let panel = tree
        .add_node(root, AsciiPosition::centered(Value::Px(10), Value::Px(4)))
        .unwrap();
    let label = tree
        .add_node(panel, AsciiPosition::relative(1, 1, Value::Px(3), Value::Px(1), 0))
        .unwrap();
    (tree, root, panel, label)
}

#[test]
fn tree_update_resolves_top_down() {
    let (mut tree, root, panel, label) = sample_tree();
    assert!(tree.update());
    assert_eq!(tree.bounds(root), Some(AsciiBounds::new(0, 0, 40, 20, 0)));
    assert_eq!(tree.bounds(panel), Some(AsciiBounds::new(15, 8, 10, 4, 1)));
    assert_eq!(tree.bounds(label), Some(AsciiBounds::new(16, 9, 3, 1, 2)));
    assert_eq!(tree.global_bounds(label), AsciiBounds::new(16, 9, 3, 1, 2));
}

#[test]
fn second_update_is_idempotent() {
    let (mut tree, root, panel, label) = sample_tree();
    assert!(tree.update());
    let first: Vec<_> = [root, panel, label].iter().map(|&i| tree.node(i).unwrap()).collect();
    assert!(!tree.update());
    let second: Vec<_> = [root, panel, label].iter().map(|&i| tree.node(i).unwrap()).collect();
    assert_eq!(first, second);
    assert!(second.iter().all(|n| !n.global.is_dirty));
}

#[test]
fn layers_grow_with_depth() {
    let (mut tree, root, panel, label) = sample_tree();
    tree.update();
    let l = |i| tree.bounds(i).unwrap().layer;
    assert!(l(panel) > l(root));
    assert!(l(label) > l(panel));
}

#[test]
fn changing_a_position_marks_descendants() {
    let (mut tree, root, panel, label) = sample_tree();
    tree.update();
    assert!(tree.set_position(panel, AsciiPosition::aligned(
        Value::Px(10),
        Value::Px(4),
        HorizontalAlignment::Left,
        VerticalAlignment::Top,
    )));
    assert!(tree.mark_positions_dirty());
    assert!(!tree.node(root).unwrap().global.is_dirty);
    assert!(tree.node(panel).unwrap().global.is_dirty);
    assert!(tree.node(label).unwrap().global.is_dirty);
    tree.update_positions();
    assert_eq!(tree.bounds(panel), Some(AsciiBounds::new(0, 0, 10, 4, 1)));
    assert_eq!(tree.bounds(label), Some(AsciiBounds::new(1, 1, 3, 1, 2)));
}

#[test]
fn outside_bounds_write_marks_only_that_node() {
    let (mut tree, _root, panel, label) = sample_tree();
    tree.update();
    assert!(tree.set_bounds(panel, AsciiBounds::new(0, 0, 1, 1, 0)));
    assert!(!tree.mark_positions_dirty());
    assert!(tree.node(panel).unwrap().global.is_dirty);
    assert!(!tree.node(label).unwrap().global.is_dirty);
    tree.update_positions();
    assert_eq!(tree.bounds(panel), Some(AsciiBounds::new(15, 8, 10, 4, 1)));
}

#[test]
fn target_resize_relayouts() {
    let (mut tree, root, panel, _label) = sample_tree();
    tree.update();
    assert!(tree.set_target_resolution(root, 20, 10));
    assert!(tree.update());
    assert_eq!(tree.bounds(panel), Some(AsciiBounds::new(5, 3, 10, 4, 1)));
}

#[test]
fn padded_node_that_does_not_fit_keeps_bounds() {
    let mut tree = LayoutTree::new();
    let root = tree.add_root(40, 20);
    let node = tree
        .add_node(root, AsciiPosition::Padded { padding: Padding { top: 25, right: 0, bottom: 0, left: 0 } })
        .unwrap();
    tree.set_bounds(node, AsciiBounds::new(1, 2, 3, 4, 5));
    tree.update();
    assert_eq!(tree.bounds(node), Some(AsciiBounds::new(1, 2, 3, 4, 5)));
}

#[test]
fn slices_and_missing_parents_are_refused() {
    let mut tree = LayoutTree::new();
    let root = tree.add_root(10, 10);
    assert_eq!(tree.add_node(root, AsciiPosition::VerticalSlice { total_slices: 2, slice: 0 }), None);
    assert_eq!(tree.add_node(7, AsciiPosition::fill()), None);
    assert!(!tree.set_position(root, AsciiPosition::HorizontalSlice { total_slices: 2, slice: 1 }));
    assert_eq!(tree.len(), 1);
    assert_eq!(tree.node(3), None);
    assert_eq!(tree.bounds(3), None);
}

#[test]
fn children_descendants_and_visibility() {
    let (mut tree, root, panel, label) = sample_tree();
    let other = tree.add_node(root, AsciiPosition::fill()).unwrap();
    assert_eq!(tree.children(root), vec![panel, other]);
    assert_eq!(tree.children(panel), vec![label]);
    assert_eq!(tree.descendants(root), vec![panel, label, other]);
    assert_eq!(tree.descendants(label), Vec::<usize>::new());
    assert!(tree.is_visible(label));
    assert!(tree.set_visible(panel, false));
    assert!(!tree.is_visible(label));
    assert!(tree.is_visible(other));
    assert!(!tree.is_visible(99));
    assert!(tree.set_clip_bounds(label, true));
    assert!(tree.node(label).unwrap().global.clip_bounds);
}
