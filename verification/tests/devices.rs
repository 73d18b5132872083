use rip8::host::cell_color;
use rip8::host::cell_origin;
use rip8::host::decode_key;
use rip8::host::handle_event;
use rip8::host::window_size;
use rip8::host::HostEvent;
use rip8::host::ESCAPE;
use rip8::host::FRAME_NANOS;
use rip8::host::SCALE;
use rip8::keypad::Keypad;
use rip8::ram::Ram;
use rip8::ram::FONTSET;
use rip8::ram::FONTSET_ADDR;
use rip8::stack::CallStack;
use rip8::fault::Fault;
use rip8::video::Video;
use std::ops::IndexMut;

fn lit(video: &Video) -> Vec<usize> {
    (0..2048).filter(|p| video[*p]).collect()
}

#[test]
fn keypad_starts_released() {
    let pad = Keypad::new();
    for k in 0..16 {
        assert!(!pad.is_pressed(k));
    }
}

#[test]
fn keypad_last_write_wins() {
    let mut pad = Keypad::new();
    pad.key_down(0);
    pad.key_down(15);
    pad.key_down(15);
    assert!(pad.is_pressed(0));
    assert!(pad.is_pressed(15));
    assert!(!pad.is_pressed(7));
    pad.key_up(15);
    assert!(!pad.is_pressed(15));
    assert!(pad.is_pressed(0));
    pad.key_up(7);
    assert!(!pad.is_pressed(7));
}

#[test]
fn memory_starts_with_glyphs_only() {
    let ram = Ram::new();
    for a in 0..4096u16 {
        let expected = if (0x50..0xA0).contains(&a) { FONTSET[(a - 0x50) as usize] } else { 0 };
        assert_eq!(ram[a], expected);
    }
    assert_eq!(FONTSET_ADDR, 0x50);
    assert_eq!(&ram[0x50..0x55], &[0xF0, 0x90, 0x90, 0x90, 0xF0]);
    assert_eq!(&ram[0x9B..0xA0], &[0xF0, 0x80, 0xF0, 0x80, 0x80]);
}

#[test]
fn default_memory_is_all_zero() {
    let ram = Ram::default();
    for a in 0..4096u16 {
        assert_eq!(ram[a], 0);
    }
}

#[test]
fn memory_load_copies_bytes() {
    let mut ram = Ram::new();
    ram.load(0x300, &[1, 2, 3]);
    assert_eq!(ram[0x2FF], 0);
    assert_eq!(ram[0x300], 1);
    assert_eq!(ram[0x302], 3);
    assert_eq!(ram[0x303], 0);
    ram.load(0xFFF, &[9]);
    assert_eq!(ram[0xFFF], 9);
    ram.load(0x1000, &[]);
    assert_eq!(ram[0x50], 0xF0);
}

#[test]
fn memory_ranges_and_writes() {
    let mut ram = Ram::new();
    *ram.index_mut(0x123) = 0x45;
    ram[0x124] = 0x67;
    assert_eq!(&ram[0x122..0x126], &[0, 0x45, 0x67, 0]);
    assert_eq!(ram[0x10..0x10].len(), 0);
    assert_eq!(ram[0..4096].len(), 4096);
}

#[test]
fn call_stack_is_last_in_first_out() {
    let mut stack = CallStack::new();
    assert_eq!(stack.depth(), 0);
    assert_eq!(stack.pop(), Err(Fault::StackUnderflow));
    assert_eq!(stack.push(0x202), Ok(()));
    assert_eq!(stack.push(0x304), Ok(()));
    assert_eq!(stack.depth(), 2);
    assert_eq!(stack.pop(), Ok(0x304));
    assert_eq!(stack.pop(), Ok(0x202));
    assert_eq!(stack.pop(), Err(Fault::StackUnderflow));
}

#[test]
fn call_stack_holds_sixteen() {
    let mut stack = CallStack::new();
    for k in 0..16 {
        assert_eq!(stack.push(k), Ok(()));
    }
    assert_eq!(stack.push(16), Err(Fault::StackOverflow));
    assert_eq!(stack.depth(), 16);
    assert_eq!(stack.pop(), Ok(15));
}

#[test]
fn display_starts_dark() {
    let video = Video::new();
    assert!(lit(&video).is_empty());
    assert_eq!(Video::WIDTH, 64);
    assert_eq!(Video::HEIGHT, 32);
}

#[test]
fn draw_sets_bits_left_to_right() {
    let mut video = Video::new();
    assert!(!video.draw(2, 1, &[0b1010_0001]));
    assert_eq!(lit(&video), vec![64 + 2, 64 + 4, 64 + 9]);
}

#[test]
fn draw_wraps_both_axes() {
    let mut video = Video::new();
    assert!(!video.draw(62, 31, &[0b1111_0000, 0b1000_0001]));
    // first row on line 31: columns 62, 63, 0, 1; second row on line 0: columns 62 and 5
    assert_eq!(lit(&video), vec![5, 62, 64 * 31, 64 * 31 + 1, 64 * 31 + 62, 64 * 31 + 63]);
}

#[test]
fn draw_takes_coordinates_modulo_display_size() {
    let mut a = Video::new();
    let mut b = Video::new();
    a.draw(64 + 3, 32 + 4, &[0xFF, 0x81]);
    b.draw(3, 4, &[0xFF, 0x81]);
    assert_eq!(lit(&a), lit(&b));
    assert_eq!(lit(&a).len(), 10);
}

#[test]
fn draw_twice_restores_and_collides() {
    let mut video = Video::new();
    video.draw(10, 10, &[0x3C, 0x42]);
    let before = lit(&video);
    let sprite = [0xF0, 0x90, 0x90, 0x90, 0xF0];
    let first = video.draw(60, 30, &sprite);
    assert!(!first);
    assert_ne!(lit(&video), before);
    let second = video.draw(60, 30, &sprite);
    assert!(second);
    assert_eq!(lit(&video), before);
}

#[test]
fn draw_collides_only_on_overlap() {
    let mut video = Video::new();
    assert!(!video.draw(0, 0, &[0b1000_0000]));
    assert!(!video.draw(1, 0, &[0b1000_0000]));
    // set bit over an unlit pixel, clear bit over a lit one: no collision
    assert!(!video.draw(0, 0, &[0b0010_0000]));
    assert_eq!(lit(&video), vec![0, 1, 2]);
    // set bit over a lit pixel
    assert!(video.draw(0, 0, &[0b0100_0001]));
    assert_eq!(lit(&video), vec![0, 2, 7]);
}

#[test]
fn draw_of_empty_sprite_does_nothing() {
    let mut video = Video::new();
    video.draw(0, 0, &[0xFF]);
    assert!(!video.draw(0, 0, &[]));
    assert_eq!(lit(&video).len(), 8);
}

#[test]
fn draw_taller_than_the_display_hits_lines_twice() {
    let mut video = Video::new();
    let mut sprite = vec![0u8; 33];
    sprite[0] = 0x80;
    sprite[32] = 0x80;
    // the last row lands on the first row's pixel and turns it off again
    assert!(video.draw(0, 0, &sprite));
    assert!(lit(&video).is_empty());
}

#[test]
fn clear_turns_every_pixel_off() {
    let mut video = Video::new();
    video.draw(5, 5, &[0xFF, 0xFF, 0xFF]);
    assert_eq!(lit(&video).len(), 24);
    video.clear();
    for p in 0..2048 {
        assert!(!video[p]);
    }
}

#[test]
fn display_pixels_can_be_written() {
    let mut video = Video::new();
    video[2047] = true;
    *video.index_mut(0) = true;
    assert_eq!(lit(&video), vec![0, 2047]);
}

#[test]
fn host_keys_map_to_keypad_rows() {
    let rows = [("1234", [0x1, 0x2, 0x3, 0xC]), ("qwer", [0x4, 0x5, 0x6, 0xD]), ("asdf", [0x7, 0x8, 0x9, 0xE]), ("zxcv", [0xA, 0x0, 0xB, 0xF])];
    for (symbols, keys) in rows.iter() {
        for (symbol, key) in symbols.chars().zip(keys.iter()) {
            assert_eq!(decode_key(symbol), Some(*key));
        }
    }
    assert_eq!(decode_key('5'), None);
    assert_eq!(decode_key('0'), None);
    assert_eq!(decode_key('Q'), None);
    assert_eq!(decode_key(' '), None);
    assert_eq!(decode_key(ESCAPE), None);
}

#[test]
fn events_press_and_release_keys() {
    let mut pad = Keypad::new();
    assert!(handle_event(&mut pad, HostEvent::KeyDown('w')));
    assert!(pad.is_pressed(5));
    assert!(handle_event(&mut pad, HostEvent::KeyDown('p')));
    assert!(handle_event(&mut pad, HostEvent::Other));
    assert!(handle_event(&mut pad, HostEvent::KeyUp('w')));
    for k in 0..16 {
        assert!(!pad.is_pressed(k));
    }
}

#[test]
fn quit_and_escape_end_the_session() {
    let mut pad = Keypad::new();
    pad.key_down(1);
    assert!(!handle_event(&mut pad, HostEvent::Quit));
    assert!(!handle_event(&mut pad, HostEvent::KeyDown(ESCAPE)));
    assert!(handle_event(&mut pad, HostEvent::KeyUp(ESCAPE)));
    assert!(pad.is_pressed(1));
}

#[test]
fn window_geometry() {
    assert_eq!(SCALE, 15);
    assert_eq!(window_size(), (960, 480));
    assert_eq!(cell_origin(0, 0), (0, 0));
    assert_eq!(cell_origin(31, 63), (945, 465));
    assert_eq!(cell_origin(2, 5), (75, 30));
    assert_eq!(cell_color(true), (3, 252, 78));
    assert_eq!(cell_color(false), (20, 20, 20));
    assert_eq!(FRAME_NANOS, 16_666_666);
}
