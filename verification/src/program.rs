use vstd::prelude::*;

use crate::bits::lemma_byte_bits;
use crate::bus::{Bus, BusView};

verus! {

/// Width of the demo screen in pixels.
pub const SCREEN_W: usize = 32;

/// Height of the demo screen in pixels.
pub const SCREEN_H: usize = 32;

/// Where the screen memory starts: one byte per pixel, row by row.
pub const SCREEN_BASE: u16 = 0x0200;

/// The colour a screen byte shows, as red, green and blue.
pub open spec fn palette(byte: u8) -> (u8, u8, u8) {
    if byte == 0 {
        (0, 0, 0)
    } else if byte == 1 {
        (255, 255, 255)
    } else if byte == 2 || byte == 9 {
        (128, 128, 128)
    } else if byte == 3 || byte == 10 {
        (255, 0, 0)
    } else if byte == 4 || byte == 11 {
        (0, 255, 0)
    } else if byte == 5 || byte == 12 {
        (0, 0, 255)
    } else if byte == 6 || byte == 13 {
        (255, 0, 255)
    } else if byte == 7 || byte == 14 {
        (255, 255, 0)
    } else {
        (128, 0, 128)
    }
}

/// Component `k` (0 red, 1 green, 2 blue) of a colour.
pub open spec fn component(rgb: (u8, u8, u8), k: int) -> u8 {
    if k == 0 {
        rgb.0
    } else if k == 1 {
        rgb.1
    } else {
        rgb.2
    }
}

/// The RGB colour of a screen byte.
pub fn pixel_color(byte: u8) -> (rgb: [u8; 3])
    ensures
        rgb@ == seq![palette(byte).0, palette(byte).1, palette(byte).2],
{
    let rgb = match byte {
        0 => [0, 0, 0],
        1 => [255, 255, 255],
        2 | 9 => [128, 128, 128],
        3 | 10 => [255, 0, 0],
        4 | 11 => [0, 255, 0],
        5 | 12 => [0, 0, 255],
        6 | 13 => [255, 0, 255],
        7 | 14 => [255, 255, 0],
        _ => [128, 0, 128],
    };
    assert(rgb@ =~= seq![palette(byte).0, palette(byte).1, palette(byte).2]);
    rgb
}

/// The RGB image of the screen memory: three bytes per pixel, row by row.
pub open spec fn screen_image(m: BusView) -> Seq<u8> {
    Seq::new(3072, |j: int| component(palette(m.read((0x0200 + j / 3) as u16)), j % 3))
}

/// The screen image is 1024 pixels of three bytes; pixel `k` is the colour of
/// the byte at 0x0200 + k, so row `k / 32`, column `k % 32` of the screen is
/// the byte at 0x0200 + 32 * row + column, and byte `c` of the pixel is its
/// red (0), green (1) or blue (2) component.
pub proof fn lemma_screen_pixel(m: BusView, k: int, c: int)
    requires
        0 <= k < 1024,
        0 <= c < 3,
    ensures
        screen_image(m).len() == 3072,
        screen_image(m)[3 * k + c] == component(palette(m.read((0x0200 + k) as u16)), c),
        screen_image(m)[3 * k + c] == component(
            palette(m.read((0x0200 + 32 * (k / 32) + k % 32) as u16)),
            c,
        ),
{
    assert((3 * k + c) / 3 == k);
    assert((3 * k + c) % 3 == c);
    assert(32 * (k / 32) + k % 32 == k);
}

/// Renders the 32×32 screen held at 0x0200–0x05FF into RGB bytes.
pub fn pixel_buffer(bus: &Bus) -> (pixels: Vec<u8>)
    ensures
        pixels@ == screen_image(bus@),
{
    let mut pixels: Vec<u8> = Vec::new();
    let mut i: usize = 0;
    while i < SCREEN_W * SCREEN_H
        invariant
            i <= 1024,
            pixels@ == screen_image(bus@).take(3 * i as int),
        decreases 1024 - i,
    {
        let rgb = pixel_color(bus.read(SCREEN_BASE + i as u16));
        pixels.push(rgb[0]);
        pixels.push(rgb[1]);
        pixels.push(rgb[2]);
        i = i + 1;
        assert(pixels@ =~= screen_image(bus@).take(3 * i as int));
    }
    assert(screen_image(bus@).take(3072) =~= screen_image(bus@));
    pixels
}

/// Where the sample program and loaded programs start.
pub const PROGRAM_START: u16 = 0x0600;

/// The largest program that fits between PROGRAM_START and the top of memory.
pub const MAX_PROGRAM_LEN: usize = 64000;

/// The sample program: a 32×32 snake game. It reads a random byte from 0xFE
/// and the last key pressed from 0xFF (W/A/S/D as ASCII) and draws into 0x0200.
pub const SAMPLE_PROGRAM: [u8; 309] = [
    0x20, 0x06, 0x06, 0x20, 0x38, 0x06, 0x20, 0x0d, 0x06, 0x20, 0x2a, 0x06, 0x60, 0xa9, 0x02,
    0x85, 0x02, 0xa9, 0x04, 0x85, 0x03, 0xa9, 0x11, 0x85, 0x10, 0xa9, 0x10, 0x85, 0x12, 0xa9,
    0x0f, 0x85, 0x14, 0xa9, 0x04, 0x85, 0x11, 0x85, 0x13, 0x85, 0x15, 0x60, 0xa5, 0xfe, 0x85,
    0x00, 0xa5, 0xfe, 0x29, 0x03, 0x18, 0x69, 0x02, 0x85, 0x01, 0x60, 0x20, 0x4d, 0x06, 0x20,
    0x8d, 0x06, 0x20, 0xc3, 0x06, 0x20, 0x19, 0x07, 0x20, 0x20, 0x07, 0x20, 0x2d, 0x07, 0x4c,
    0x38, 0x06, 0xa5, 0xff, 0xc9, 0x77, 0xf0, 0x0d, 0xc9, 0x64, 0xf0, 0x14, 0xc9, 0x73, 0xf0,
    0x1b, 0xc9, 0x61, 0xf0, 0x22, 0x60, 0xa9, 0x04, 0x24, 0x02, 0xd0, 0x26, 0xa9, 0x01, 0x85,
    0x02, 0x60, 0xa9, 0x08, 0x24, 0x02, 0xd0, 0x1b, 0xa9, 0x02, 0x85, 0x02, 0x60, 0xa9, 0x01,
    0x24, 0x02, 0xd0, 0x10, 0xa9, 0x04, 0x85, 0x02, 0x60, 0xa9, 0x02, 0x24, 0x02, 0xd0, 0x05,
    0xa9, 0x08, 0x85, 0x02, 0x60, 0x60, 0x20, 0x94, 0x06, 0x20, 0xa8, 0x06, 0x60, 0xa5, 0x00,
    0xc5, 0x10, 0xd0, 0x0d, 0xa5, 0x01, 0xc5, 0x11, 0xd0, 0x07, 0xe6, 0x03, 0xe6, 0x03, 0x20,
    0x2a, 0x06, 0x60, 0xa2, 0x02, 0xb5, 0x10, 0xc5, 0x10, 0xd0, 0x06, 0xb5, 0x11, 0xc5, 0x11,
    0xf0, 0x09, 0xe8, 0xe8, 0xe4, 0x03, 0xf0, 0x06, 0x4c, 0xaa, 0x06, 0x4c, 0x35, 0x07, 0x60,
    0xa6, 0x03, 0xca, 0x8a, 0xb5, 0x10, 0x95, 0x12, 0xca, 0x10, 0xf9, 0xa5, 0x02, 0x4a, 0xb0,
    0x09, 0x4a, 0xb0, 0x19, 0x4a, 0xb0, 0x1f, 0x4a, 0xb0, 0x2f, 0xa5, 0x10, 0x38, 0xe9, 0x20,
    0x85, 0x10, 0x90, 0x01, 0x60, 0xc6, 0x11, 0xa9, 0x01, 0xc5, 0x11, 0xf0, 0x28, 0x60, 0xe6,
    0x10, 0xa9, 0x1f, 0x24, 0x10, 0xf0, 0x1f, 0x60, 0xa5, 0x10, 0x18, 0x69, 0x20, 0x85, 0x10,
    0xb0, 0x01, 0x60, 0xe6, 0x11, 0xa9, 0x06, 0xc5, 0x11, 0xf0, 0x0c, 0x60, 0xc6, 0x10, 0xa5,
    0x10, 0x29, 0x1f, 0xc9, 0x1f, 0xf0, 0x01, 0x60, 0x4c, 0x35, 0x07, 0xa0, 0x00, 0xa5, 0xfe,
    0x91, 0x00, 0x60, 0xa6, 0x03, 0xa9, 0x00, 0x81, 0x10, 0xa2, 0x00, 0xa9, 0x01, 0x81, 0x10,
    0x60, 0xa2, 0x00, 0xea, 0xea, 0xca, 0xd0, 0xfb, 0x60,
];

/// The sample program as a vector of bytes.
pub fn default_game_code() -> (code: Vec<u8>)
    ensures
        code@ == SAMPLE_PROGRAM@,
{
    let mut code: Vec<u8> = Vec::new();
    let mut i: usize = 0;
    while i < SAMPLE_PROGRAM.len()
        invariant
            i <= SAMPLE_PROGRAM@.len(),
            code@ == SAMPLE_PROGRAM@.take(i as int),
        decreases SAMPLE_PROGRAM@.len() - i,
    {
        code.push(SAMPLE_PROGRAM[i]);
        i = i + 1;
        assert(code@ =~= SAMPLE_PROGRAM@.take(i as int));
    }
    assert(SAMPLE_PROGRAM@.take(i as int) =~= SAMPLE_PROGRAM@);
    code
}

/// The upper-case hexadecimal digit for a value below 16.
pub open spec fn hex_char(d: int) -> char {
    if d < 10 {
        (48 + d) as char
    } else {
        (55 + d) as char
    }
}

/// A byte as two upper-case hexadecimal digits.
pub open spec fn hex_byte_text(b: u8) -> Seq<char> {
    seq![hex_char(b as int / 16), hex_char(b as int % 16)]
}

/// A program as text: each byte as two hex digits, sixteen bytes per line,
/// bytes on a line separated by a space and lines by a newline.
pub open spec fn code_text(code: Seq<u8>) -> Seq<char>
    decreases code.len(),
{
    if code.len() == 0 {
        Seq::empty()
    } else {
        let n = code.len() - 1;
        let sep: Seq<char> = if n == 0 {
            Seq::empty()
        } else if n % 16 == 0 {
            seq!['\n']
        } else {
            seq![' ']
        };
        code_text(code.take(n)) + sep + hex_byte_text(code[n])
    }
}

pub(crate) fn hex_digit(d: u8) -> (s: &'static str)
    requires
        d < 16,
    ensures
        s@ == seq![hex_char(d as int)],
{
    proof {
        reveal_strlit("0");
        reveal_strlit("1");
        reveal_strlit("2");
        reveal_strlit("3");
        reveal_strlit("4");
        reveal_strlit("5");
        reveal_strlit("6");
        reveal_strlit("7");
        reveal_strlit("8");
        reveal_strlit("9");
        reveal_strlit("A");
        reveal_strlit("B");
        reveal_strlit("C");
        reveal_strlit("D");
        reveal_strlit("E");
        reveal_strlit("F");
    }
    match d {
        0 => "0",
        1 => "1",
        2 => "2",
        3 => "3",
        4 => "4",
        5 => "5",
        6 => "6",
        7 => "7",
        8 => "8",
        9 => "9",
        10 => "A",
        11 => "B",
        12 => "C",
        13 => "D",
        14 => "E",
        _ => "F",
    }
}

/// Formats a program as hex text, sixteen bytes per line.
pub fn format_code(code: &[u8]) -> (text: String)
    ensures
        text@ == code_text(code@),
{
    let mut text = String::new();
    let mut i: usize = 0;
    while i < code.len()
        invariant
            i <= code@.len(),
            text@ == code_text(code@.take(i as int)),
        decreases code@.len() - i,
    {
        if i > 0 {
            if i % 16 == 0 {
                text.append("\n");
            } else {
                text.append(" ");
            }
        }
        let b = code[i];
        proof {
            reveal_strlit("\n");
            reveal_strlit(" ");
            lemma_byte_bits(b);
            assert(code@.take(i + 1).take(i as int) =~= code@.take(i as int));
        }
        text.append(hex_digit(b >> 4));
        text.append(hex_digit(b & 0x0F));
        i = i + 1;
    }
    assert(code@.take(code@.len() as int) =~= code@);
    text
}

} // verus!
