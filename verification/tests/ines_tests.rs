use nes::bus::ByteReadable;
use nes::iNES;
use nes::ines::character_rom::{CharacterROM, Sprite, SpriteError};
use nes::ines::program_rom::ProgramROM;
use nes::ines::InesError;
use nes::cpu::registers::Registers;
use nes::cpu::status_register::StatusRegister;

fn image(prog_units: u8, char_units: u8) -> Vec<u8> {
    let mut data = vec![0u8; 16];
    data[0] = 0x4E;
    data[1] = 0x45;
    data[2] = 0x53;
    data[3] = 0x1A;
    data[4] = prog_units;
    data[5] = char_units;
    let prog = prog_units as usize * 0x4000;
    let chr = char_units as usize * 0x2000;
    for i in 0..prog {
        data.push((i % 7) as u8);
    }
    for i in 0..chr {
        data.push((i % 11) as u8);
    }
    data
}

#[test]
fn parse_accepts_a_well_formed_image() {
    let data = image(1, 1);
    let ines = iNES::parse(&data).unwrap();
    assert_eq!(ines.programROM.len(), 0x4000);
    assert_eq!(ines.programROM.read_byte(0x0000), 0x00);
    assert_eq!(ines.programROM.read_byte(0x0008), (8 % 7) as u8);
    assert_eq!(ines.characterROM.number_of_sprites(), 0x2000 / 16);
}

#[test]
fn parse_rejects_short_header() {
    let data = vec![0x4E, 0x45, 0x53];
    assert_eq!(iNES::parse(&data).err(), Some(InesError::HeaderTooShort));
}

#[test]
fn parse_rejects_bad_magic() {
    let mut data = image(0, 0);
    data[3] = 0x00;
    assert_eq!(iNES::parse(&data).err(), Some(InesError::BadMagic));
}

#[test]
fn parse_rejects_truncated_image() {
    let mut data = image(1, 0);
    data.truncate(16 + 0x1000);
    assert_eq!(iNES::parse(&data).err(), Some(InesError::Truncated));
}

#[test]
fn program_rom_reads_zero_past_the_end() {
    let rom = ProgramROM::new(&[0x10, 0x20]);
    assert_eq!(rom.len(), 2);
    assert_eq!(rom.read_byte(0), 0x10);
    assert_eq!(rom.read_byte(1), 0x20);
    assert_eq!(rom.read_byte(2), 0x00);
}

#[test]
fn character_rom_counts_whole_sprites() {
    let rom = CharacterROM::new(&[0u8; 40]);
    assert_eq!(rom.number_of_sprites(), 2);
}

#[test]
fn nth_sprite_extracts_its_sixteen_bytes() {
    let mut data = vec![0u8; 32];
    for (i, b) in data.iter_mut().enumerate() {
        *b = i as u8;
    }
    let rom = CharacterROM::new(&data);
    let sprite = rom.nth_sprite(1);
    // Row 0 of the second sprite: low plane byte 16, high plane byte 24.
    // Pixel column x reads bit 7 - x of each plane byte and sums the bits.
    // 16 = 0b0001_0000, 24 = 0b0001_1000.
    assert_eq!(sprite.pallet_color_number_for_pixel(3, 0), Ok(2));
    assert_eq!(sprite.pallet_color_number_for_pixel(4, 0), Ok(1));
    assert_eq!(sprite.pallet_color_number_for_pixel(0, 0), Ok(0));
    // Row 1 of the second sprite: low plane byte 17 = 0b0001_0001.
    assert_eq!(sprite.pallet_color_number_for_pixel(7, 1), Ok(2));
}

#[test]
fn sprite_pixel_color_combines_both_planes() {
    let mut bytes = [0u8; 16];
    bytes[0] = 0b1000_0001; // low plane, row 0
    bytes[8] = 0b1000_0000; // high plane, row 0
    let sprite = Sprite::new(bytes);
    assert_eq!(sprite.pallet_color_number_for_pixel(0, 0), Ok(2));
    assert_eq!(sprite.pallet_color_number_for_pixel(7, 0), Ok(1));
    assert_eq!(sprite.pallet_color_number_for_pixel(1, 0), Ok(0));
    assert_eq!(sprite.pallet_color_number_for_pixel(0, 1), Ok(0));
}

#[test]
fn sprite_pixel_rejects_out_of_range_coordinates() {
    let sprite = Sprite::new([0u8; 16]);
    assert_eq!(
        sprite.pallet_color_number_for_pixel(8, 0),
        Err(SpriteError::XOutOfRange)
    );
    assert_eq!(
        sprite.pallet_color_number_for_pixel(0, 8),
        Err(SpriteError::YOutOfRange)
    );
    assert_eq!(
        sprite.pallet_color_number_for_pixel(9, 9),
        Err(SpriteError::XOutOfRange)
    );
}

#[test]
fn status_register_defaults_and_setters() {
    let mut p = StatusRegister::new();
    assert!(p.reserved());
    assert!(!p.negative());
    assert!(!p.overflow());
    assert!(!p.break_mode());
    assert!(!p.decimal_mode());
    assert!(!p.irq_disable());
    assert!(!p.zero());
    assert!(!p.carry());
    p.set_carry(true);
    p.set_zero(true);
    p.set_negative(true);
    p.set_overflow(true);
    p.set_break_mode(true);
    p.set_decimal_mode(true);
    p.set_irq_disable(true);
    assert!(p.carry() && p.zero() && p.negative() && p.overflow());
    assert!(p.break_mode() && p.decimal_mode() && p.irq_disable());
    p.reset();
    assert!(p.reserved());
    assert!(!p.carry() && !p.zero() && !p.negative() && !p.overflow());
}

#[test]
fn register_file_reset_and_pc_primitives() {
    let mut regs = Registers::new();
    regs.a = 1;
    regs.x = 2;
    regs.y = 3;
    regs.s = 4;
    regs.pc = 0x1234;
    regs.reset();
    assert_eq!(regs.a, 0);
    assert_eq!(regs.x, 0);
    assert_eq!(regs.y, 0);
    assert_eq!(regs.s, 0);
    assert_eq!(regs.pc, 0);
    assert!(regs.p.reserved());
    regs.set_pc(0xFFFF);
    assert_eq!(regs.pc, 0xFFFF);
    regs.advance_pc();
    assert_eq!(regs.pc, 0x0000);
}
