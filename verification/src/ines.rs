#![allow(non_camel_case_types)]
#![allow(non_snake_case)]

use vstd::prelude::*;

pub mod character_rom;
pub mod program_rom;

use character_rom::CharacterROM;
use program_rom::ProgramROM;

verus! {

pub const HEADER_BYTES: usize = 16;

/// 16KB: the unit the header counts program-ROM banks in.
pub const PROGRAM_ROM_UNIT: usize = 0x4000;

/// 8KB: the unit the header counts character-ROM banks in.
pub const CHARACTER_ROM_UNIT: usize = 0x2000;

/// Why a cartridge image was rejected.
#[derive(Clone, Copy, Debug, PartialEq, Eq, Structural)]
pub enum InesError {
    /// The image is shorter than the 16-byte header.
    HeaderTooShort,
    /// The header does not start with the `NES` magic followed by the
    /// MS-DOS end-of-file byte.
    BadMagic,
    /// The header promises more program or character bytes than the image
    /// holds.
    Truncated,
}

/// The program-ROM byte count the header declares: the bank count at byte 4
/// times 16KB.
pub open spec fn spec_program_rom_size(data: Seq<u8>) -> int {
    data[4] * PROGRAM_ROM_UNIT
}

/// The character-ROM byte count the header declares: the bank count at
/// byte 5 times 8KB.
pub open spec fn spec_character_rom_size(data: Seq<u8>) -> int {
    data[5] * CHARACTER_ROM_UNIT
}

/// Whether the first four bytes are `NES` followed by the MS-DOS
/// end-of-file byte.
pub open spec fn spec_magic_ok(data: Seq<u8>) -> bool {
    data[0] == 0x4E && data[1] == 0x45 && data[2] == 0x53 && data[3] == 0x1A
}

/// A parsed cartridge image: the flat program and character byte arrays.
pub struct iNES {
    pub programROM: ProgramROM,
    pub characterROM: CharacterROM,
}

impl iNES {
    /// Parses a header-prefixed cartridge image. Succeeds exactly when the
    /// image holds the 16-byte header, the header starts with the `NES`
    /// magic, and the image holds all the program and character bytes the
    /// header declares; the two byte arrays follow the header back to back,
    /// program first.
    pub fn parse(data: &[u8]) -> (r: Result<iNES, InesError>)
        ensures
            data@.len() < HEADER_BYTES ==> (r matches Err(e) && e == InesError::HeaderTooShort),
            data@.len() >= HEADER_BYTES && !spec_magic_ok(data@) ==> (r matches Err(e) && e
                == InesError::BadMagic),
            data@.len() >= HEADER_BYTES && spec_magic_ok(data@) && data@.len() < HEADER_BYTES
                + spec_program_rom_size(data@) + spec_character_rom_size(data@) ==> (r matches Err(
                e,
            ) && e == InesError::Truncated),
            data@.len() >= HEADER_BYTES && spec_magic_ok(data@) && data@.len() >= HEADER_BYTES
                + spec_program_rom_size(data@) + spec_character_rom_size(data@) ==> (r matches Ok(v)
                && v.programROM@ == data@.subrange(
                HEADER_BYTES as int,
                HEADER_BYTES + spec_program_rom_size(data@),
            ) && v.characterROM@ == data@.subrange(
                HEADER_BYTES + spec_program_rom_size(data@),
                HEADER_BYTES + spec_program_rom_size(data@) + spec_character_rom_size(data@),
            )),
    {
        if data.len() < HEADER_BYTES {
            return Err(InesError::HeaderTooShort);
        }
        if !(data[0] == 0x4E && data[1] == 0x45 && data[2] == 0x53 && data[3] == 0x1A) {
            return Err(InesError::BadMagic);
        }
        let program_rom_size = extract_program_rom_size(data);
        let character_rom_size = (data[5] as usize) * CHARACTER_ROM_UNIT;
        if data.len() < HEADER_BYTES + program_rom_size + character_rom_size {
            return Err(InesError::Truncated);
        }

        let program_rom = extract_program_rom(data);
        let character_rom = extract_character_rom(data);

        Ok(iNES { programROM: program_rom, characterROM: character_rom })
    }
}

/// Copies the program bytes out of an image already checked to hold them.
pub fn extract_program_rom(data: &[u8]) -> (r: ProgramROM)
    requires
        HEADER_BYTES + spec_program_rom_size(data@) <= data@.len(),
    ensures
        r@ == data@.subrange(HEADER_BYTES as int, HEADER_BYTES + spec_program_rom_size(data@)),
{
    let program_rom_start = HEADER_BYTES;
    let program_rom_end = program_rom_start + extract_program_rom_size(data);

    ProgramROM::new(vstd::slice::slice_subrange(data, program_rom_start, program_rom_end))
}

/// Copies the character bytes out of an image already checked to hold them.
pub fn extract_character_rom(data: &[u8]) -> (r: CharacterROM)
    requires
        HEADER_BYTES + spec_program_rom_size(data@) + spec_character_rom_size(data@)
            <= data@.len(),
    ensures
        r@ == data@.subrange(
            HEADER_BYTES + spec_program_rom_size(data@),
            HEADER_BYTES + spec_program_rom_size(data@) + spec_character_rom_size(data@),
        ),
{
    let character_rom_size = (data[5] as usize) * CHARACTER_ROM_UNIT;
    let program_rom_size = extract_program_rom_size(data);
    let character_rom_start = HEADER_BYTES + program_rom_size;
    let character_rom_end = character_rom_start + character_rom_size;

    CharacterROM::new(vstd::slice::slice_subrange(data, character_rom_start, character_rom_end))
}

/// The program-ROM byte count the header declares.
pub fn extract_program_rom_size(data: &[u8]) -> (r: usize)
    requires
        data@.len() >= 5,
    ensures
        r == spec_program_rom_size(data@),
{
    let program_rom_size_in_unit = data[4];

    (program_rom_size_in_unit as usize) * PROGRAM_ROM_UNIT
}

} // verus!
