use vga_buffer::color::ColorCode;
use vga_buffer::greeting::print_something;
use vga_buffer::grid::{Buffer, ScreenChar, VGA_BUFFER_HEIGHT, VGA_BUFFER_WIDTH};
use volatile::Volatile;

fn cell(glyph: u8, attribute: u8) -> ScreenChar {
    ScreenChar { ascii_character: glyph, color_code: ColorCode(attribute) }
}

fn filled(with: ScreenChar) -> Buffer {
    Buffer { chars: core::array::from_fn(|_| core::array::from_fn(|_| Volatile::new(with))) }
}

#[test]
fn greeting_is_shown_in_yellow_on_black() {
    let mut buffer: Buffer = filled(cell(b' ', 0x07));
    print_something(&mut buffer);
    let expected: [u8; 17] = [
        b'H', b'e', b'l', b'l', b'o', b' ', b'w', 0xfe, 0xfe, 0xfe, 0xfe, 0xfe, 0xfe, b'r', b'l', b'd', b'!',
    ];
    let mut column: usize = 0;
    while column < expected.len() {
        assert_eq!(buffer.read(24, column), cell(expected[column], 0x0e));
        column += 1;
    }
}

#[test]
fn greeting_leaves_the_rest_of_the_grid() {
    let mut buffer: Buffer = filled(cell(b'.', 0x70));
    print_something(&mut buffer);
    let mut row: usize = 0;
    while row < VGA_BUFFER_HEIGHT {
        let mut column: usize = 0;
        while column < VGA_BUFFER_WIDTH {
            if !(row == 24 && column < 17) {
                assert_eq!(buffer.read(row, column), cell(b'.', 0x70));
            }
            column += 1;
        }
        row += 1;
    }
}

#[test]
fn greeting_shown_twice_is_the_same() {
    let mut buffer: Buffer = filled(cell(b' ', 0x07));
    print_something(&mut buffer);
    let mut once: Vec<ScreenChar> = Vec::new();
    let mut column: usize = 0;
    while column < VGA_BUFFER_WIDTH {
        once.push(buffer.read(24, column));
        column += 1;
    }
    print_something(&mut buffer);
    column = 0;
    while column < VGA_BUFFER_WIDTH {
        assert_eq!(buffer.read(24, column), once[column]);
        column += 1;
    }
}
