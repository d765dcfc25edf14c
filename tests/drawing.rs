use ascii_ui::{
    break_string_into_lines, AsciiBounds, AsciiBuffer, AsciiCharacter, AsciiSurface, BorderType,
    Character, Color, HorizontalAlignment, Padding, Value, VerticalAlignment,
};

fn glyph(index: Character, fg: Color, bg: Color, layer: u32) -> AsciiCharacter {
    AsciiCharacter::Glyph { index, text_color: fg, background_color: bg, layer }
}

fn glyph_at(surface: &AsciiSurface, x: i32, y: i32) -> Option<Character> {
    match surface.get_character(x, y) {
        Some(AsciiCharacter::Glyph { index, .. }) => Some(index),
        _ => None,
    }
}

fn row_text(surface: &AsciiSurface, y: i32) -> Vec<Option<Character>> {
    (0..surface.width() as i32).map(|x| glyph_at(surface, x, y)).collect()
}

#[test]
fn character_from_char() {
    assert_eq!(Character::from_char('a'), Character::A);
    assert_eq!(Character::from_char('Z'), Character::Z);
    assert_eq!(Character::from_char('@'), Character::AT);
    assert_eq!(Character::from_char('7'), Character::Seven);
    assert_eq!(Character::from_char(' '), Character::Space);
    assert_eq!(Character::from_char('?'), Character::QuestionMark);
    assert_eq!(Character::from_char('\u{20AC}'), Character::Euro);
    assert_eq!(Character::from_char('~'), Character::Nil);
    assert_eq!(Character::from_char('\\'), Character::Nil);
    assert_eq!(Character::C.index(), 3);
    assert_eq!(Character::Nil.index(), 96);
    assert_eq!(Character::QuadCorners.index(), 127);
    assert_eq!(Color::Green.index(), 5);
    assert_eq!(Color::LightGrey.index(), 15);
}

#[test]
fn cell_bytes() {
    assert_eq!(glyph(Character::C, Color::Green, Color::Red, 9).into_u8(), [3, 5, 2, 1]);
    assert_eq!(AsciiCharacter::Unset.into_u8(), [0, 0, 0, 0]);
    assert_eq!(AsciiCharacter::default(), AsciiCharacter::Unset);
    assert_eq!(
        AsciiCharacter::from_char('b', Color::Red, Color::Blue),
        glyph(Character::B, Color::Red, Color::Blue, 0)
    );
    assert_eq!(AsciiCharacter::new(Character::A, Color::White, Color::Black).with_layer(4).into_u8(), [1, 1, 0, 1]);
}

#[test]
fn single_glyph_round_trip() {
    let mut surface = AsciiSurface::new(4, 3);
    surface.set_character(2, 1, glyph(Character::C, Color::Green, Color::Red, 0));
    let bytes = surface.as_byte_vec();
    assert_eq!(bytes.len(), 4 * 12);
    let at = 4 * (1 * 4 + 2);
    assert_eq!(&bytes[at..at + 4], &[3, 5, 2, 1]);
    for (k, b) in bytes.iter().enumerate() {
        if !(at..at + 4).contains(&k) {
            assert_eq!(*b, 0);
        }
    }
}

#[test]
fn occlusion_by_layer() {
    let mut surface = AsciiSurface::new(2, 2);
    surface.set_character(0, 0, glyph(Character::A, Color::White, Color::Black, 5));
    surface.set_character(0, 0, glyph(Character::B, Color::White, Color::Black, 4));
    assert_eq!(glyph_at(&surface, 0, 0), Some(Character::A));
    surface.set_character(0, 0, glyph(Character::C, Color::White, Color::Black, 5));
    assert_eq!(glyph_at(&surface, 0, 0), Some(Character::C));
    surface.set_character(0, 0, glyph(Character::D, Color::White, Color::Black, 6));
    assert_eq!(glyph_at(&surface, 0, 0), Some(Character::D));
    surface.set_character(0, 0, AsciiCharacter::Unset);
    assert_eq!(glyph_at(&surface, 0, 0), Some(Character::D));
}

#[test]
fn out_of_range_writes_are_dropped() {
    let mut surface = AsciiSurface::new(2, 2);
    surface.set_character(-1, 0, glyph(Character::A, Color::White, Color::Black, 0));
    surface.set_character(2, 0, glyph(Character::A, Color::White, Color::Black, 0));
    surface.set_character(0, 2, glyph(Character::A, Color::White, Color::Black, 0));
    assert!(surface.as_byte_vec().iter().all(|b| *b == 0));
    assert_eq!(surface.get_character(5, 5), None);
    assert_eq!(surface.len(), 4);
}

#[test]
fn clear_empties_cells() {
    let mut surface = AsciiSurface::new(3, 1);
    surface.set_character(1, 0, glyph(Character::A, Color::White, Color::Black, 0));
    surface.clear();
    assert_eq!(surface.get_character(1, 0), Some(AsciiCharacter::Unset));
    assert_eq!(surface.len(), 3);
    let empty = AsciiSurface::default();
    assert_eq!(empty.len(), 0);
}

#[test]
fn buffer_offsets_layers_and_clips() {
    let mut surface = AsciiSurface::new(10, 5);
    let buffer = AsciiBuffer::new(&AsciiBounds::new(2, 1, 3, 2, 4), None);
    buffer.set_character(&mut surface, 1, 1, glyph(Character::A, Color::White, Color::Black, 0));
    assert_eq!(surface.get_character(3, 2), Some(glyph(Character::A, Color::White, Color::Black, 4)));
    let clipped = buffer.clip();
    clipped.set_character(&mut surface, 6, 0, glyph(Character::B, Color::White, Color::Black, 0));
    assert_eq!(surface.get_character(8, 1), Some(AsciiCharacter::Unset));
    buffer.set_character(&mut surface, 6, 0, glyph(Character::B, Color::White, Color::Black, 0));
    assert_eq!(glyph_at(&surface, 8, 1), Some(Character::B));
}

#[test]
fn buffer_derivations() {
    let buffer = AsciiBuffer::new(&AsciiBounds::new(0, 0, 20, 10, 1), None);
    assert_eq!(buffer.top(2).bounds, AsciiBounds::new(0, 0, 20, 2, 2));
    assert_eq!(buffer.bottom(2).bounds, AsciiBounds::new(0, 8, 20, 2, 2));
    assert_eq!(buffer.left(3).bounds, AsciiBounds::new(0, 0, 3, 10, 2));
    assert_eq!(buffer.right(3).bounds, AsciiBounds::new(17, 0, 3, 10, 2));
    assert_eq!(buffer.center(Value::Px(4), Value::Px(2)).bounds, AsciiBounds::new(8, 4, 4, 2, 2));
    assert_eq!(buffer.relative(1, 2, Value::Px(3), Value::Px(4)).bounds, AsciiBounds::new(1, 2, 3, 4, 3));
    assert_eq!(buffer.padding(Padding::uniform(2)).bounds, AsciiBounds::new(2, 2, 16, 6, 1));
    assert_eq!(buffer.padding(Padding::uniform(5)).bounds, buffer.bounds);
    assert_eq!(buffer.sub_buffer(3, 3, 2, 2).unwrap().bounds, AsciiBounds::new(3, 3, 2, 2, 2));
    assert!(buffer.sub_buffer(30, 3, 2, 2).is_none());
    assert_eq!(*buffer.bounds(), AsciiBounds::new(0, 0, 20, 10, 1));
}

#[test]
fn box_with_border_and_title() {
    let mut surface = AsciiSurface::new(10, 4);
    let buffer = AsciiBuffer::new(&AsciiBounds::from_dims(10, 4), None);
    let inner = buffer
        .square()
        .border(BorderType::Full)
        .title("ab")
        .title_alignment(HorizontalAlignment::Left)
        .draw(&mut surface)
        .unwrap();
    assert_eq!(inner.bounds, AsciiBounds::new(1, 1, 8, 2, 1));
    assert_eq!(glyph_at(&surface, 0, 0), Some(Character::LBorderNW));
    assert_eq!(glyph_at(&surface, 9, 0), Some(Character::LBorderNE));
    assert_eq!(glyph_at(&surface, 0, 3), Some(Character::LBorderSW));
    assert_eq!(glyph_at(&surface, 9, 3), Some(Character::LBorderSE));
    assert_eq!(glyph_at(&surface, 1, 0), Some(Character::BorderN));
    assert_eq!(glyph_at(&surface, 2, 0), Some(Character::A));
    assert_eq!(glyph_at(&surface, 3, 0), Some(Character::B));
    assert_eq!(glyph_at(&surface, 0, 1), Some(Character::BorderW));
    assert_eq!(glyph_at(&surface, 9, 2), Some(Character::BorderE));
    assert_eq!(glyph_at(&surface, 4, 3), Some(Character::BorderS));
    assert_eq!(glyph_at(&surface, 4, 1), Some(Character::Nil));
    match surface.get_character(2, 0) {
        Some(AsciiCharacter::Glyph { text_color, background_color, .. }) => {
            assert_eq!(text_color, Color::Black);
            assert_eq!(background_color, Color::White);
        }
        _ => panic!("title cell not drawn"),
    }
}

#[test]
fn box_title_suppressed_when_narrow() {
    let mut surface = AsciiSurface::new(5, 3);
    let buffer = AsciiBuffer::new(&AsciiBounds::from_dims(5, 3), None);
    buffer.square().border(BorderType::Full).title("xyz").draw(&mut surface);
    assert_eq!(glyph_at(&surface, 2, 0), Some(Character::BorderN));
}

#[test]
fn box_title_centered_and_right() {
    let mut surface = AsciiSurface::new(12, 3);
    let buffer = AsciiBuffer::new(&AsciiBounds::from_dims(12, 3), None);
    buffer.square().title("ab").title_alignment(HorizontalAlignment::Center).draw(&mut surface);
    assert_eq!(glyph_at(&surface, 5, 0), Some(Character::A));
    assert_eq!(glyph_at(&surface, 6, 0), Some(Character::B));
    let mut surface = AsciiSurface::new(12, 3);
    buffer.square().title("ab").title_alignment(HorizontalAlignment::Right).draw(&mut surface);
    assert_eq!(glyph_at(&surface, 8, 0), Some(Character::A));
    assert_eq!(glyph_at(&surface, 9, 0), Some(Character::B));
}

#[test]
fn border_sides() {
    let mut surface = AsciiSurface::new(6, 4);
    let buffer = AsciiBuffer::new(&AsciiBounds::from_dims(6, 4), None);
    let inner = buffer.border(BorderType::Full).all().draw(&mut surface).unwrap();
    assert_eq!(inner.bounds, AsciiBounds::new(1, 1, 4, 2, 1));
    assert_eq!(glyph_at(&surface, 0, 0), Some(Character::BorderW));
    assert_eq!(glyph_at(&surface, 5, 3), Some(Character::BorderE));
    assert_eq!(glyph_at(&surface, 2, 0), Some(Character::BorderN));
    assert_eq!(glyph_at(&surface, 2, 3), Some(Character::BorderS));
    assert_eq!(glyph_at(&surface, 2, 2), None);
    let mut surface = AsciiSurface::new(6, 4);
    buffer.border(BorderType::Full).top().draw(&mut surface);
    assert_eq!(glyph_at(&surface, 0, 0), Some(Character::BorderN));
    assert_eq!(glyph_at(&surface, 0, 1), None);
}

#[test]
fn text_wrap_and_truncate() {
    let text = "This text should wrap to the next line.";
    let mut surface = AsciiSurface::new(12, 3);
    let buffer = AsciiBuffer::new(&AsciiBounds::new(0, 0, 12, 1, 0), None);
    buffer.text(text).wrap().draw(&mut surface);
    let first = break_string_into_lines(text, 12)[0].clone();
    assert!(first.len() < text.len());
    let expected: Vec<Option<Character>> = (0..12)
        .map(|x| if x < first.len() && x < 11 { Some(Character::from_char(first.as_bytes()[x] as char)) } else { None })
        .collect();
    assert_eq!(row_text(&surface, 0), expected);
    assert!(row_text(&surface, 1).iter().all(|c| c.is_none()));
    assert!(row_text(&surface, 2).iter().all(|c| c.is_none()));
}

#[test]
fn text_lines_and_alignment() {
    let mut surface = AsciiSurface::new(8, 4);
    let buffer = AsciiBuffer::new(&AsciiBounds::from_dims(8, 4), None);
    buffer
        .text("ab\r\ncd\n")
        .horizontal_alignment(HorizontalAlignment::Center)
        .vertical_alignment(VerticalAlignment::Center)
        .draw(&mut surface);
    assert_eq!(glyph_at(&surface, 3, 1), Some(Character::A));
    assert_eq!(glyph_at(&surface, 4, 1), Some(Character::B));
    assert_eq!(glyph_at(&surface, 3, 2), Some(Character::C));
    assert_eq!(glyph_at(&surface, 4, 2), Some(Character::D));
    assert_eq!(glyph_at(&surface, 5, 1), None);
    let mut surface = AsciiSurface::new(8, 4);
    buffer
        .text("ab")
        .horizontal_alignment(HorizontalAlignment::Right)
        .vertical_alignment(VerticalAlignment::Bottom)
        .text_color(Color::Red)
        .bg_color(Color::Blue)
        .draw(&mut surface);
    assert_eq!(
        surface.get_character(5, 2),
        Some(glyph(Character::A, Color::Red, Color::Blue, 0))
    );
    assert_eq!(glyph_at(&surface, 6, 2), Some(Character::B));
}

#[test]
fn text_last_column_left_out() {
    let mut surface = AsciiSurface::new(4, 1);
    let buffer = AsciiBuffer::new(&AsciiBounds::from_dims(4, 1), None);
    buffer.text("wxyz").draw(&mut surface);
    assert_eq!(row_text(&surface, 0), vec![Some(Character::W), Some(Character::X), Some(Character::Y), None]);
}

#[test]
fn wrapping_breaks_words() {
    let lines = break_string_into_lines("one two", 3);
    assert_eq!(lines, vec!["one".to_string(), "two".to_string()]);
}
