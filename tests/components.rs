use ascii_ui::{
    extract_ascii_ui, update_components, AsciiBounds, AsciiBuffer, AsciiButton, AsciiCharacter,
    AsciiComponentButtonClicked, AsciiComponentHoverEnteredEvent, AsciiComponentHoverExitedEvent,
    AsciiCursor, AsciiMarkDirtyEvent, AsciiPosition, AsciiSurface, AsciiUi, AsciiUiCommands,
    Character, Color, HorizontalAlignment, LayoutTree, Value, Variable, VerticalAlignment,
};

fn glyph_at(surface: &AsciiSurface, x: i32, y: i32) -> Option<Character> {
    match surface.get_character(x, y) {
        Some(AsciiCharacter::Glyph { index, .. }) => Some(index),
        _ => None,
    }
}

#[test]
fn button_renders_frame_and_centered_label() {
    let mut surface = AsciiSurface::new(10, 3);
    let button = AsciiButton::from_string("ok");
    let buffer = AsciiBuffer::new(&AsciiBounds::from_dims(10, 3), None);
    button.render(&buffer, &mut surface);
    assert_eq!(glyph_at(&surface, 0, 0), Some(Character::LBorderNW));
    assert_eq!(glyph_at(&surface, 9, 2), Some(Character::LBorderSE));
    assert_eq!(glyph_at(&surface, 4, 1), Some(Character::O));
    assert_eq!(glyph_at(&surface, 5, 1), Some(Character::K));
    match surface.get_character(4, 1) {
        Some(AsciiCharacter::Glyph { layer, text_color, background_color, .. }) => {
            assert_eq!(layer, 1);
            assert_eq!(text_color, Color::White);
            assert_eq!(background_color, Color::Black);
        }
        _ => panic!("label not drawn"),
    }
}

#[test]
fn button_hover_and_click_events() {
    let bounds = AsciiBounds::new(2, 2, 4, 2, 0);
    let mut button = AsciiButton::from_string("go");
    let e = button.update(&AsciiCursor::At { x: 3, y: 3 }, false, &bounds, 7);
    assert!(button.is_hovering);
    assert_eq!(e.hover_entered, Some(AsciiComponentHoverEnteredEvent(7)));
    assert_eq!(e.mark_dirty, Some(AsciiMarkDirtyEvent));
    assert_eq!(e.clicked, None);
    let e = button.update(&AsciiCursor::Away, true, &bounds, 7);
    assert!(button.is_hovering);
    assert_eq!(e.clicked, Some(AsciiComponentButtonClicked(7)));
    assert_eq!(e.mark_dirty, None);
    let e = button.update(&AsciiCursor::At { x: 0, y: 0 }, true, &bounds, 7);
    assert!(!button.is_hovering);
    assert_eq!(e.hover_exited, Some(AsciiComponentHoverExitedEvent(7)));
    assert_eq!(e.clicked, None);
    let e = button.update(&AsciiCursor::At { x: 6, y: 4 }, false, &bounds, 7);
    assert!(button.is_hovering);
    assert_eq!(e.hover_entered, Some(AsciiComponentHoverEnteredEvent(7)));
}

#[test]
fn render_and_update_skip_hidden_nodes() {
    let mut tree = LayoutTree::new();
    let root = tree.add_root(20, 6);
    let shown = tree.add_node(root, AsciiPosition::aligned(Value::Px(6), Value::Px(3), HorizontalAlignment::Left, VerticalAlignment::Top)).unwrap();
    let hidden = tree.add_node(root, AsciiPosition::aligned(Value::Px(6), Value::Px(3), HorizontalAlignment::Right, VerticalAlignment::Top)).unwrap();
    tree.set_visible(hidden, false);
    tree.update();
    let mut components = vec![
        (shown, AsciiButton::from_string("a")),
        (hidden, AsciiButton::from_string("b")),
        (99, AsciiButton::from_string("c")),
    ];
    let mut surface = AsciiSurface::new(20, 6);
    extract_ascii_ui(&tree, &mut surface, &components);
    assert_eq!(glyph_at(&surface, 0, 0), Some(Character::LBorderNW));
    assert_eq!(glyph_at(&surface, 14, 0), None);
    let events = update_components(&tree, &mut components, &AsciiCursor::At { x: 1, y: 1 }, true);
    assert_eq!(events.len(), 3);
    assert!(components[0].1.is_hovering);
    assert_eq!(events[0].clicked, Some(AsciiComponentButtonClicked(shown)));
    let events = update_components(&tree, &mut components, &AsciiCursor::At { x: 15, y: 1 }, true);
    assert!(!components[1].1.is_hovering);
    assert_eq!(events[1].clicked, None);
    assert_eq!(events[2].hover_entered, None);
}

#[test]
fn builder_pushes_and_pops() {
    let mut tree = LayoutTree::new();
    let root = tree.add_root(40, 20);
    let mut ui = AsciiUiCommands::ascii_ui_with_parent(root);
    ui.centered(&mut tree, Value::Px(20), Value::Px(10));
    let panel = ui.current_entity;
    ui.top(&mut tree, Value::Px(1));
    let header = ui.current_entity;
    ui.pop();
    assert_eq!(ui.current_entity, panel);
    ui.relative(&mut tree, 1, 2, Value::Px(3), Value::Px(1));
    let label = ui.current_entity;
    ui.hidden(&mut tree);
    ui.pop();
    ui.pop();
    assert_eq!(ui.current_entity, root);
    ui.pop();
    assert_eq!(ui.current_entity, root);
    ui.fill(&mut tree);
    ui.pop();
    ui.left(&mut tree, Value::Px(2));
    ui.pop();
    ui.right(&mut tree, Value::Px(2));
    ui.pop();
    ui.bottom(&mut tree, Value::Px(2));
    ui.pop();
    ui.aligned(&mut tree, Value::Px(2), Value::Px(2), HorizontalAlignment::Right, VerticalAlignment::Bottom);
    let corner = ui.current_entity;
    ui.push_from_pos(&mut tree, AsciiPosition::VerticalSlice { total_slices: 3, slice: 1 });
    assert_eq!(ui.current_entity, corner);
    tree.update();
    assert_eq!(tree.bounds(panel), Some(AsciiBounds::new(10, 5, 20, 10, 1)));
    assert_eq!(tree.bounds(header), Some(AsciiBounds::new(10, 5, 20, 1, 2)));
    assert_eq!(tree.bounds(label), Some(AsciiBounds::new(11, 7, 3, 1, 3)));
    assert_eq!(tree.bounds(corner), Some(AsciiBounds::new(38, 18, 2, 2, 1)));
    assert!(!tree.is_visible(label));
    assert_eq!(tree.children(root).len(), 6);
}

#[test]
fn ui_dirty_flag() {
    let mut ui = AsciiUi::default();
    assert!(!ui.is_dirty());
    ui.mark_ui_dirty(false, false);
    assert!(!ui.is_dirty());
    ui.mark_ui_dirty(false, true);
    assert!(ui.is_dirty());
    ui.clean_ui();
    assert!(!ui.is_dirty());
    ui.mark_ui_dirty(true, false);
    assert!(ui.is_dirty());
}

#[test]
fn variable_tracks_writes() {
    let mut v = Variable::new(3);
    assert!(!v.changed());
    assert_eq!(*v.get(), 3);
    *v.get_mut() = 5;
    assert!(v.changed());
    assert_eq!(*v.get(), 5);
    v.reset();
    assert!(!v.changed());
    assert_eq!(*v.get(), 5);
}
