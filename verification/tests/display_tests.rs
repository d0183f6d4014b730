use chip8::display::{Display, COLOR_OFF, COLOR_ON, HEIGHT, PIXELS, WIDTH};

fn lit_pixels(display: &Display) -> Vec<(usize, usize)> {
    let mut lit = Vec::new();
    for y in 0..HEIGHT {
        for x in 0..WIDTH {
            if display.get_point(x, y) {
                lit.push((x, y));
            }
        }
    }
    lit
}

#[test]
fn new_display_is_blank() {
    let display = Display::new();
    assert!(lit_pixels(&display).is_empty());
    assert_eq!(display.buffer().len(), PIXELS);
    assert!(display.buffer().iter().all(|color| *color == COLOR_OFF));
}

#[test]
fn set_point_then_get_point() {
    let mut display = Display::new();
    display.set_point(63, 31, true);
    display.set_point(0, 0, true);
    display.set_point(5, 7, true);
    assert_eq!(lit_pixels(&display), vec![(0, 0), (5, 7), (63, 31)]);
    display.set_point(5, 7, false);
    assert!(!display.get_point(5, 7));
    assert!(display.get_point(63, 31));
}

#[test]
fn clear_turns_every_pixel_off() {
    let mut display = Display::new();
    display.draw(3, 4, &[0xFF, 0x81, 0xFF]);
    assert!(!lit_pixels(&display).is_empty());
    display.clear();
    assert!(lit_pixels(&display).is_empty());
}

#[test]
fn draw_puts_most_significant_bit_first() {
    let mut display = Display::new();
    let collision = display.draw(2, 1, &[0b1010_0001]);
    assert!(!collision);
    assert_eq!(lit_pixels(&display), vec![(2, 1), (4, 1), (9, 1)]);
}

#[test]
fn draw_rows_go_downwards() {
    let mut display = Display::new();
    display.draw(0, 0, &[0x80, 0x40, 0x20]);
    assert_eq!(lit_pixels(&display), vec![(0, 0), (1, 1), (2, 2)]);
}

#[test]
fn draw_wraps_at_the_right_edge() {
    let mut display = Display::new();
    display.draw(60, 0, &[0xFF]);
    assert_eq!(
        lit_pixels(&display),
        vec![(0, 0), (1, 0), (2, 0), (3, 0), (60, 0), (61, 0), (62, 0), (63, 0)]
    );
}

#[test]
fn draw_wraps_at_the_bottom_edge() {
    let mut display = Display::new();
    display.draw(0, 31, &[0x80, 0x80]);
    assert_eq!(lit_pixels(&display), vec![(0, 0), (0, 31)]);
}

#[test]
fn draw_takes_coordinates_modulo_the_grid() {
    let mut display = Display::new();
    display.draw(64 + 3, 32 + 2, &[0x80]);
    assert_eq!(lit_pixels(&display), vec![(3, 2)]);
    let mut other = Display::new();
    other.draw(255, 255, &[0xC0]);
    assert_eq!(lit_pixels(&other), vec![(0, 31), (63, 31)]);
}

#[test]
fn draw_twice_collides_and_restores_blank() {
    let sprite = [0xF0, 0x90, 0x90, 0x90, 0xF0];
    let mut display = Display::new();
    assert!(!display.draw(10, 12, &sprite));
    assert!(!lit_pixels(&display).is_empty());
    assert!(display.draw(10, 12, &sprite));
    assert!(lit_pixels(&display).is_empty());
}

#[test]
fn draw_twice_restores_any_grid() {
    let mut display = Display::new();
    display.draw(7, 3, &[0x3C, 0x42, 0x81]);
    let before = lit_pixels(&display);
    display.draw(5, 2, &[0xFF, 0xFF, 0xFF, 0xFF]);
    assert_ne!(lit_pixels(&display), before);
    display.draw(5, 2, &[0xFF, 0xFF, 0xFF, 0xFF]);
    assert_eq!(lit_pixels(&display), before);
}

#[test]
fn draw_collision_only_on_overlap_of_set_bits() {
    let mut display = Display::new();
    assert!(!display.draw(0, 0, &[0xF0]));
    assert!(!display.draw(4, 0, &[0xF0]));
    assert!(display.draw(7, 0, &[0x80]));
    assert!(!display.get_point(7, 0));
    assert!(!display.draw(0, 1, &[0xFF]));
}

#[test]
fn draw_collision_is_sticky() {
    let mut display = Display::new();
    display.set_point(0, 0, true);
    assert!(display.draw(0, 0, &[0x80, 0x80, 0x80]));
    assert_eq!(lit_pixels(&display), vec![(0, 1), (0, 2)]);
}

#[test]
fn draw_empty_sprite_changes_nothing() {
    let mut display = Display::new();
    display.draw(1, 1, &[0xAA]);
    let before = lit_pixels(&display);
    assert!(!display.draw(1, 1, &[]));
    assert_eq!(lit_pixels(&display), before);
}

#[test]
fn draw_blank_sprite_twice_never_collides() {
    let mut display = Display::new();
    assert!(!display.draw(0, 0, &[0x00, 0x00]));
    assert!(!display.draw(0, 0, &[0x00, 0x00]));
}

#[test]
fn draw_long_sprite_collides_with_itself() {
    let mut sprite = vec![0u8; 33];
    sprite[0] = 0x80;
    sprite[32] = 0x80;
    let mut display = Display::new();
    assert!(display.draw(0, 0, &sprite));
    assert!(lit_pixels(&display).is_empty());
}

#[test]
fn render_maps_pixels_to_two_colors() {
    let mut display = Display::new();
    display.draw(1, 0, &[0xC0]);
    display.set_point(63, 31, true);
    assert!(display.buffer().iter().all(|color| *color == COLOR_OFF));
    display.render();
    let frame = display.buffer();
    assert_eq!(frame.len(), WIDTH * HEIGHT);
    for (p, color) in frame.iter().enumerate() {
        let expected = if p == 1 || p == 2 || p == 2047 { COLOR_ON } else { COLOR_OFF };
        assert_eq!(*color, expected);
    }
    assert_eq!(COLOR_ON, 0xFFFFFF);
    assert_eq!(COLOR_OFF, 0);
    assert_eq!(lit_pixels(&display), vec![(1, 0), (2, 0), (63, 31)]);
}

#[test]
fn render_frame_stays_until_next_render() {
    let mut display = Display::new();
    display.set_point(0, 0, true);
    display.render();
    display.clear();
    assert_eq!(display.buffer()[0], COLOR_ON);
    display.render();
    assert_eq!(display.buffer()[0], COLOR_OFF);
}
