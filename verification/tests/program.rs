use nes_emu::bus::Bus;
use nes_emu::program::{
    default_game_code, format_code, pixel_buffer, pixel_color, MAX_PROGRAM_LEN, PROGRAM_START,
    SAMPLE_PROGRAM, SCREEN_BASE, SCREEN_H, SCREEN_W,
};

#[test]
fn pixel_color_palette() {
    assert_eq!(pixel_color(0), [0, 0, 0]);
    assert_eq!(pixel_color(1), [255, 255, 255]);
    assert_eq!(pixel_color(2), [128, 128, 128]);
    assert_eq!(pixel_color(9), [128, 128, 128]);
    assert_eq!(pixel_color(3), [255, 0, 0]);
    assert_eq!(pixel_color(10), [255, 0, 0]);
    assert_eq!(pixel_color(4), [0, 255, 0]);
    assert_eq!(pixel_color(11), [0, 255, 0]);
    assert_eq!(pixel_color(5), [0, 0, 255]);
    assert_eq!(pixel_color(12), [0, 0, 255]);
    assert_eq!(pixel_color(6), [255, 0, 255]);
    assert_eq!(pixel_color(13), [255, 0, 255]);
    assert_eq!(pixel_color(7), [255, 255, 0]);
    assert_eq!(pixel_color(14), [255, 255, 0]);
    assert_eq!(pixel_color(8), [128, 0, 128]);
    assert_eq!(pixel_color(15), [128, 0, 128]);
    assert_eq!(pixel_color(0xFF), [128, 0, 128]);
}

#[test]
fn pixel_buffer_of_blank_screen_is_black() {
    let bus = Bus::new();
    let pixels = pixel_buffer(&bus);
    assert_eq!(pixels.len(), SCREEN_W * SCREEN_H * 3);
    assert!(pixels.iter().all(|&b| b == 0));
}

#[test]
fn pixel_buffer_maps_screen_memory_row_by_row() {
    let mut bus = Bus::new();
    bus.write(SCREEN_BASE, 1);
    bus.write(SCREEN_BASE + 33, 3);
    bus.write(SCREEN_BASE + 1023, 5);
    let pixels = pixel_buffer(&bus);
    assert_eq!(&pixels[0..3], &[255, 255, 255]);
    assert_eq!(&pixels[3..6], &[0, 0, 0]);
    assert_eq!(&pixels[33 * 3..33 * 3 + 3], &[255, 0, 0]);
    assert_eq!(&pixels[1023 * 3..1023 * 3 + 3], &[0, 0, 255]);
}

#[test]
fn default_game_code_is_the_sample_program() {
    let code = default_game_code();
    assert_eq!(code.len(), 309);
    assert_eq!(code, SAMPLE_PROGRAM.to_vec());
    assert_eq!(&code[0..3], &[0x20, 0x06, 0x06]);
    assert_eq!(code[308], 0x60);
}

#[test]
fn program_limits() {
    assert_eq!(PROGRAM_START, 0x0600);
    assert_eq!(MAX_PROGRAM_LEN, 0x10000 - 0x0600);
}

#[test]
fn format_code_empty() {
    assert_eq!(format_code(&[]), "");
}

#[test]
fn format_code_upper_case_two_digits() {
    assert_eq!(format_code(&[0x0A, 0xFF, 0x00]), "0A FF 00");
}

#[test]
fn format_code_sixteen_bytes_per_line() {
    let code: Vec<u8> = (0u8..18).collect();
    assert_eq!(
        format_code(&code),
        "00 01 02 03 04 05 06 07 08 09 0A 0B 0C 0D 0E 0F\n10 11"
    );
}

#[test]
fn format_code_exactly_one_line() {
    let code = [0xEAu8; 16];
    let text = format_code(&code);
    assert!(!text.contains('\n'));
    assert_eq!(text.len(), 16 * 3 - 1);
}

#[test]
fn format_code_parses_back() {
    let code = default_game_code();
    let text = format_code(&code);
    assert_eq!(nes_emu::code_text::parse_code(&text), Ok(code));
}
