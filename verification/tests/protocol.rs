use m8_bridge::proto::{parse, read16, Command, Violation, CHARACTER_CMD, JOYPAD_CMD, RECTANGLE_CMD, WAVEFORM_CMD};

#[test]
fn read16_is_little_endian() {
    assert_eq!(read16(&[0x34, 0x12]), 0x1234);
    assert_eq!(read16(&[0x00, 0x01]), 256);
    assert_eq!(read16(&[0xFF, 0xFF]), 0xFFFF);
}

#[test]
fn joypad_three_bytes_is_acknowledged() {
    let r = parse(&[JOYPAD_CMD, 0x12, 0x34]);
    assert!(matches!(r, Ok(None)));
}

#[test]
fn joypad_two_bytes_is_violation() {
    let r = parse(&[JOYPAD_CMD, 0x12]);
    assert!(matches!(r, Err(Violation::WrongLength(b, 2)) if b == JOYPAD_CMD));
}

#[test]
fn joypad_four_bytes_is_violation() {
    let r = parse(&[JOYPAD_CMD, 1, 2, 3]);
    assert!(matches!(r, Err(Violation::WrongLength(b, 4)) if b == JOYPAD_CMD));
}

#[test]
fn waveform_four_bytes_has_no_samples() {
    let r = parse(&[WAVEFORM_CMD, 10, 20, 30]);
    match r {
        Ok(Some(Command::Waveform(color, samples))) => {
            assert_eq!(color, (10, 20, 30));
            assert!(samples.is_empty());
        }
        _ => panic!("expected an empty waveform"),
    }
}

#[test]
fn waveform_full_frame_has_320_samples() {
    let mut frame: Vec<u8> = vec![WAVEFORM_CMD, 1, 2, 3];
    for i in 0..320usize {
        frame.push((i % 256) as u8);
    }
    assert_eq!(frame.len(), 324);
    match parse(&frame) {
        Ok(Some(Command::Waveform(color, samples))) => {
            assert_eq!(color, (1, 2, 3));
            assert_eq!(samples.len(), 320);
            assert_eq!(samples[0], 0);
            assert_eq!(samples[319], (319 % 256) as u8);
        }
        _ => panic!("expected a full waveform"),
    }
}

#[test]
fn waveform_five_bytes_is_violation() {
    let r = parse(&[WAVEFORM_CMD, 1, 2, 3, 4]);
    assert!(matches!(r, Err(Violation::WrongLength(b, 5)) if b == WAVEFORM_CMD));
}

#[test]
fn waveform_323_bytes_is_violation() {
    let mut frame: Vec<u8> = vec![WAVEFORM_CMD];
    for _ in 0..322 {
        frame.push(0);
    }
    let r = parse(&frame);
    assert!(matches!(r, Err(Violation::WrongLength(b, 323)) if b == WAVEFORM_CMD));
}

#[test]
fn character_frame_parses_fields() {
    let frame = [CHARACTER_CMD, 7, 10, 0, 20, 0, 255, 0, 0, 0, 0, 0];
    match parse(&frame) {
        Ok(Some(Command::Character(glyph, x, y, fg, bg))) => {
            assert_eq!(glyph, 7);
            assert_eq!(x, 10);
            assert_eq!(y, 20);
            assert_eq!(fg, (255, 0, 0));
            assert_eq!(bg, (0, 0, 0));
        }
        _ => panic!("expected a character command"),
    }
}

#[test]
fn character_eleven_bytes_is_violation() {
    let frame = [CHARACTER_CMD, 7, 10, 0, 20, 0, 255, 0, 0, 0, 0];
    let r = parse(&frame);
    assert!(matches!(r, Err(Violation::WrongLength(b, 11)) if b == CHARACTER_CMD));
}

#[test]
fn character_thirteen_bytes_is_violation() {
    let frame = [CHARACTER_CMD, 7, 10, 0, 20, 0, 255, 0, 0, 0, 0, 0, 0];
    let r = parse(&frame);
    assert!(matches!(r, Err(Violation::WrongLength(b, 13)) if b == CHARACTER_CMD));
}

#[test]
fn rectangle_frame_parses_little_endian_geometry() {
    let frame = [RECTANGLE_CMD, 0x40, 0x01, 10, 0, 0x2C, 0x01, 22, 0, 9, 8, 7];
    match parse(&frame) {
        Ok(Some(Command::Rectangle(x, y, w, h, color))) => {
            assert_eq!(x, 320);
            assert_eq!(y, 10);
            assert_eq!(w, 300);
            assert_eq!(h, 22);
            assert_eq!(color, (9, 8, 7));
        }
        _ => panic!("expected a rectangle command"),
    }
}

#[test]
fn rectangle_eleven_bytes_is_violation() {
    let frame = [RECTANGLE_CMD, 0, 0, 0, 0, 0, 0, 0, 0, 0, 0];
    let r = parse(&frame);
    assert!(matches!(r, Err(Violation::WrongLength(b, 11)) if b == RECTANGLE_CMD));
}

#[test]
fn rectangle_thirteen_bytes_is_violation() {
    let frame = [RECTANGLE_CMD, 0, 0, 0, 0, 0, 0, 0, 0, 0, 0, 0, 0];
    let r = parse(&frame);
    assert!(matches!(r, Err(Violation::WrongLength(b, 13)) if b == RECTANGLE_CMD));
}

#[test]
fn unknown_leading_byte_is_reported() {
    let r = parse(&[0x42, 1, 2]);
    assert!(matches!(r, Err(Violation::UnknownCommand(0x42))));
}

#[test]
fn empty_frame_is_violation() {
    let r = parse(&[]);
    assert!(matches!(r, Err(Violation::EmptyFrame)));
}
