use vstd::prelude::*;

verus! {

// Bits of flags 6.
pub const MIRROR_TYPE: u8 = 0x1;
pub const PERSISTENT_FLAG: u8 = 0x2;
pub const TRAINER_FLAG: u8 = 0x4;
pub const MIRROR_4_SCREEN: u8 = 0x8;
// High nibble of flags 6 and 7: the mapper number.
pub const MAPPER_NUMBER: u8 = 0xF0;

pub const INVALID_HEADER: &'static str = "rom does not contain iNES identifier and is invalid";

/// Nametable mirroring of the cartridge.
#[derive(Clone, Copy, Debug, PartialEq, Eq, Structural)]
pub enum MirrorType {
    Horizontal,
    Vertical,
    Both,
}

/// Cartridge mappers this emulator knows.
#[derive(Clone, Copy, Debug, PartialEq, Eq, Structural)]
pub enum Mapper {
    NROM,
}

/// Whether a byte sequence starts with the iNES magic `N E S 0x1A`.
pub open spec fn has_ines_magic(rom: Seq<u8>) -> bool {
    rom.len() >= 4 && rom[0] == 0x4E && rom[1] == 0x45 && rom[2] == 0x53 && rom[3] == 0x1A
}

/// The 16-byte header of an iNES ROM, without its zero fill.
#[derive(Clone, Copy, Debug)]
pub struct INESHeader {
    /// The format identifier, `N E S 0x1A`.
    pub identifier: [u8; 4],
    /// Size of PRG ROM in 16 KiB units.
    pub prg_rom_size: u8,
    /// Size of CHR ROM in 8 KiB units.
    pub chr_rom_size: u8,
    /// Size of PRG RAM in 8 KiB units (0 means 8 KiB).
    pub prg_ram_size: u8,
    pub flags_6: u8,
    pub flags_7: u8,
    pub flags_9: u8,
    pub flags_10: u8,
}

impl INESHeader {
    /// Whether the header holds the fields of `rom`'s first sixteen bytes.
    pub open spec fn read_from(self, rom: Seq<u8>) -> bool {
        &&& rom.len() >= 16
        &&& self.identifier@ == rom.subrange(0, 4)
        &&& self.prg_rom_size == rom[4]
        &&& self.chr_rom_size == rom[5]
        &&& self.flags_6 == rom[6]
        &&& self.flags_7 == rom[7]
        &&& self.prg_ram_size == rom[8]
        &&& self.flags_9 == rom[9]
        &&& self.flags_10 == rom[10]
    }

    pub open spec fn spec_mapper_number(self) -> u8 {
        ((self.flags_6 & MAPPER_NUMBER) >> 4u8) | (self.flags_7 & MAPPER_NUMBER)
    }

    pub open spec fn spec_has_trainer(self) -> bool {
        self.flags_6 & TRAINER_FLAG == TRAINER_FLAG
    }

    /// Parses the header of a ROM. Fails when the ROM is shorter than
    /// sixteen bytes or does not start with the iNES magic.
    pub fn new(rom: &[u8]) -> (r: Result<INESHeader, &'static str>)
        ensures
            r.is_ok() <==> rom@.len() >= 16 && has_ines_magic(rom@),
            r.is_ok() ==> r.unwrap().read_from(rom@),
            r.is_err() ==> r == Err::<INESHeader, &'static str>(INVALID_HEADER),
    {
        if rom.len() < 0x10 {
            return Err(INVALID_HEADER);
        }
        if rom[0] != 0x4E || rom[1] != 0x45 || rom[2] != 0x53 || rom[3] != 0x1A {
            return Err(INVALID_HEADER);
        }
        let identifier: [u8; 4] = [rom[0], rom[1], rom[2], rom[3]];
        assert(identifier@ =~= rom@.subrange(0, 4));
        Ok(
            INESHeader {
                identifier: identifier,
                prg_rom_size: rom[4],
                chr_rom_size: rom[5],
                flags_6: rom[6],
                flags_7: rom[7],
                prg_ram_size: rom[8],
                flags_9: rom[9],
                flags_10: rom[10],
            },
        )
    }

    /// Nametable mirroring: four-screen wins over the mirroring bit.
    pub fn mirror_type(&self) -> (r: MirrorType)
        ensures
            r == (if self.flags_6 & MIRROR_4_SCREEN == MIRROR_4_SCREEN {
                MirrorType::Both
            } else if self.flags_6 & MIRROR_TYPE == MIRROR_TYPE {
                MirrorType::Vertical
            } else {
                MirrorType::Horizontal
            }),
    {
        if self.flags_6 & MIRROR_4_SCREEN == MIRROR_4_SCREEN {
            MirrorType::Both
        } else if self.flags_6 & MIRROR_TYPE == MIRROR_TYPE {
            MirrorType::Vertical
        } else {
            MirrorType::Horizontal
        }
    }

    /// Whether the cartridge has battery-backed RAM.
    pub fn has_persistent_ram(&self) -> (r: bool)
        ensures
            r == (self.flags_6 & PERSISTENT_FLAG == PERSISTENT_FLAG),
    {
        self.flags_6 & PERSISTENT_FLAG == PERSISTENT_FLAG
    }

    /// Whether a 512-byte trainer follows the header.
    pub fn has_trainer(&self) -> (r: bool)
        ensures
            r == self.spec_has_trainer(),
    {
        self.flags_6 & TRAINER_FLAG == TRAINER_FLAG
    }

    /// The mapper number: low nibble from the high nibble of flags 6, high
    /// nibble from the high nibble of flags 7.
    pub fn mapper_number(&self) -> (r: u8)
        ensures
            r == self.spec_mapper_number(),
    {
        ((self.flags_6 & MAPPER_NUMBER) >> 4u8) | (self.flags_7 & MAPPER_NUMBER)
    }

    /// The mapper in use; only mapper 0 (NROM) is supported.
    pub fn mapper(&self) -> (r: Mapper)
        requires
            self.spec_mapper_number() == 0,
        ensures
            r == Mapper::NROM,
    {
        Mapper::NROM
    }
}

/// Checks that a ROM holds a whole iNES header: at least sixteen bytes,
/// starting with the iNES magic.
pub fn parse_rom_header(rom: &[u8]) -> (r: Result<(), &'static str>)
    ensures
        r.is_ok() <==> rom@.len() >= 16 && has_ines_magic(rom@),
        r.is_err() ==> r == Err::<(), &'static str>(INVALID_HEADER),
{
    if rom.len() < 0x10 {
        return Err(INVALID_HEADER);
    }
    if rom[0] != 0x4E || rom[1] != 0x45 || rom[2] != 0x53 || rom[3] != 0x1A {
        return Err(INVALID_HEADER);
    }
    Ok(())
}

} // verus!
