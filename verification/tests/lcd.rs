use valuelinediscovery::lcd::{Lcd, Operation, Register, CLEAR_DISPLAY, COLUMNS, FOREIGN_BITS, ROWS};

#[test]
fn word_puts_the_top_half_first() {
    let frames = Lcd(0).word(Register::Data, Operation::Write, 0x41);
    assert_eq!(frames, (0x0000_0024, 0x0000_0021));
}

#[test]
fn word_keeps_the_bits_of_others() {
    let frames = Lcd(0xFFFF_FFFF).word(Register::Data, Operation::Write, 0x41);
    assert_eq!(frames, (0xFFFF_DFE4, 0xFFFF_DFE1));
    let frames = Lcd(0x0000_0300).word(Register::Instruction, Operation::Write, 0x28);
    assert_eq!(frames, (0x0000_0302, 0x0000_0308));
}

#[test]
fn word_drops_what_was_on_the_display_lines() {
    let dirty = Lcd(0x0000_203F).word(Register::Instruction, Operation::Write, 0x00);
    assert_eq!(dirty, (0, 0));
}

#[test]
fn word_sets_the_control_lines() {
    assert_eq!(Lcd(0).word(Register::Instruction, Operation::Write, 0), (0x00, 0x00));
    assert_eq!(Lcd(0).word(Register::Instruction, Operation::Read, 0), (0x10, 0x10));
    assert_eq!(Lcd(0).word(Register::Data, Operation::Write, 0), (0x20, 0x20));
    assert_eq!(Lcd(0).word(Register::Data, Operation::Read, 0), (0x30, 0x30));
}

#[test]
fn word_covers_every_byte() {
    for data in 0u8..=255 {
        let (first, second) = Lcd(0x0000_0100).word(Register::Data, Operation::Write, data);
        assert_eq!(first, 0x0000_0120 | (data >> 4) as u32);
        assert_eq!(second, 0x0000_0120 | (data & 0x0F) as u32);
    }
}

#[test]
fn nibble_strobes_the_low_half() {
    let frames = Lcd(0).nibble(Register::Instruction, Operation::Write, 0x3);
    assert_eq!(frames, (0x0000_0003, 0x0000_F003, 0x0000_0003));
    let frames = Lcd(0).nibble(Register::Instruction, Operation::Write, 0xA2);
    assert_eq!(frames, (0x0000_0002, 0x0000_F002, 0x0000_0002));
}

#[test]
fn nibble_on_a_port_in_use() {
    let frames = Lcd(0xFFFF_FFFF).nibble(Register::Data, Operation::Read, 0x5);
    assert_eq!(frames, (0xFFFF_DFF5, 0xFFFF_FFF5, 0xFFFF_0FF5));
}

#[test]
fn clear_sends_the_clear_instruction() {
    assert_eq!(CLEAR_DISPLAY, 0x01);
    assert_eq!(Lcd(0).clear(), (0x00, 0x01));
    assert_eq!(Lcd(0x0000_0200).clear(), (0x0000_0200, 0x0000_0201));
    assert_eq!(Lcd(7).clear(), Lcd(7).word(Register::Instruction, Operation::Write, 0x01));
}

#[test]
fn set_position_addresses_each_row() {
    assert_eq!(Lcd(0).set_position(0, 0), Some((0x8, 0x0)));
    assert_eq!(Lcd(0).set_position(1, 0), Some((0xC, 0x0)));
    assert_eq!(Lcd(0).set_position(2, 0), Some((0x9, 0x4)));
    assert_eq!(Lcd(0).set_position(3, 0), Some((0xD, 0x4)));
    assert_eq!(Lcd(0).set_position(2, 5), Some((0x9, 0x9)));
    assert_eq!(Lcd(0).set_position(3, 19), Some((0xE, 0x7)));
    assert_eq!(Lcd(0).set_position(3, 8), Some((0xD, 0xC)));
}

#[test]
fn set_position_is_a_write_to_the_instruction_register() {
    let port = 0x0000_0300;
    for row in 0..ROWS {
        for col in 0..COLUMNS {
            let start: u8 = [0x00, 0x40, 0x14, 0x54][row as usize];
            let frames = Lcd(port).word(Register::Instruction, Operation::Write, 0x80 + start + col);
            assert_eq!(Lcd(port).set_position(row, col), Some(frames));
        }
    }
}

#[test]
fn set_position_outside_the_display_gives_nothing() {
    assert_eq!(ROWS, 4);
    assert_eq!(COLUMNS, 20);
    assert_eq!(Lcd(0).set_position(4, 0), None);
    assert_eq!(Lcd(0).set_position(0, 20), None);
    assert_eq!(Lcd(0).set_position(255, 255), None);
    assert_eq!(Lcd(0).set_position(3, 20), None);
    assert_eq!(Lcd(0).set_position(4, 19), None);
}

#[test]
fn foreign_bits_are_all_but_the_display_lines() {
    assert_eq!(FOREIGN_BITS, !(0x3Fu32 | (1 << 13)));
}
