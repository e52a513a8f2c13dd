use chip8::opcode::{address, family_index, join, low_byte, nibble, x_index, y_index};

#[test]
fn join_puts_the_high_byte_first() {
    assert_eq!(join(0x12, 0x34), 0x1234);
    assert_eq!(join(0x00, 0xFF), 0x00FF);
    assert_eq!(join(0xFF, 0x00), 0xFF00);
    assert_eq!(join(0xFF, 0xFF), 0xFFFF);
    assert_eq!(join(0, 0), 0);
}

#[test]
fn fields_of_an_instruction_word() {
    let op = 0xD7A9;
    assert_eq!(family_index(op), 0xD);
    assert_eq!(x_index(op), 0x7);
    assert_eq!(y_index(op), 0xA);
    assert_eq!(nibble(op), 0x9);
    assert_eq!(low_byte(op), 0xA9);
    assert_eq!(address(op), 0x7A9);
}

#[test]
fn fields_of_the_extreme_words() {
    assert_eq!(family_index(0x0000), 0);
    assert_eq!(x_index(0x0000), 0);
    assert_eq!(y_index(0x0000), 0);
    assert_eq!(nibble(0x0000), 0);
    assert_eq!(low_byte(0x0000), 0);
    assert_eq!(address(0x0000), 0);
    assert_eq!(family_index(0xFFFF), 0xF);
    assert_eq!(x_index(0xFFFF), 0xF);
    assert_eq!(y_index(0xFFFF), 0xF);
    assert_eq!(nibble(0xFFFF), 0xF);
    assert_eq!(low_byte(0xFFFF), 0xFF);
    assert_eq!(address(0xFFFF), 0xFFF);
}

#[test]
fn each_field_stands_alone() {
    assert_eq!((family_index(0xF000), x_index(0xF000), y_index(0xF000), nibble(0xF000)), (0xF, 0, 0, 0));
    assert_eq!((family_index(0x0F00), x_index(0x0F00), y_index(0x0F00), nibble(0x0F00)), (0, 0xF, 0, 0));
    assert_eq!((family_index(0x00F0), x_index(0x00F0), y_index(0x00F0), nibble(0x00F0)), (0, 0, 0xF, 0));
    assert_eq!((family_index(0x000F), x_index(0x000F), y_index(0x000F), nibble(0x000F)), (0, 0, 0, 0xF));
}
