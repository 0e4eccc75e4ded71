//! Cartridge container parser: splits a raw byte image into program-ROM and
//! character-ROM, and extracts the mapper id and the name-table mirroring mode.

use vstd::prelude::*;

verus! {

/// Name-table mirroring arrangement requested by the cartridge.
#[derive(Debug, Clone, Copy, PartialEq, Eq, Structural)]
pub enum Mirroring {
    Vertical,
    Horizontal,
    FourScreen,
}

/// Why a byte image was rejected by the container parser.
#[derive(Debug, Clone, Copy, PartialEq, Eq, Structural)]
pub enum RomError {
    /// The four-byte container tag is absent.
    BadTag,
    /// The container-version field (upper two bits of header byte 7) is nonzero.
    UnsupportedVersion,
    /// The image is shorter than the header plus the payloads it announces.
    TruncatedPayload,
}

/// A parsed cartridge: immutable program-ROM and character-ROM byte blobs.
pub struct Rom {
    pub prg_rom: Vec<u8>,
    pub chr_rom: Vec<u8>,
    pub mapper: u8,
    pub screen_mirroring: Mirroring,
}

pub const PRG_ROM_PAGE_SIZE: usize = 16384;
pub const CHR_ROM_PAGE_SIZE: usize = 8192;
pub const HEADER_SIZE: usize = 16;
pub const TRAINER_SIZE: usize = 512;

/// The image begins with the bytes `N`, `E`, `S`, `0x1A`.
pub open spec fn has_nes_tag(raw: Seq<u8>) -> bool {
    raw.len() >= 4 && raw[0] == 0x4E && raw[1] == 0x45 && raw[2] == 0x53 && raw[3] == 0x1A
}

/// All sixteen header bytes are present.
pub open spec fn header_complete(raw: Seq<u8>) -> bool {
    raw.len() >= HEADER_SIZE
}

/// Container-format version: the upper two bits of header byte 7.
pub open spec fn spec_version(raw: Seq<u8>) -> u8 {
    raw[7] & 0x0C
}

/// Number of bytes of program-ROM announced by the header.
pub open spec fn spec_prg_size(raw: Seq<u8>) -> int {
    raw[4] * PRG_ROM_PAGE_SIZE
}

/// Number of bytes of character-ROM announced by the header.
pub open spec fn spec_chr_size(raw: Seq<u8>) -> int {
    raw[5] * CHR_ROM_PAGE_SIZE
}

/// Offset of the program-ROM: the header, plus a 512-byte trainer when
/// header byte 6 bit 2 is set.
pub open spec fn spec_prg_start(raw: Seq<u8>) -> int {
    HEADER_SIZE + if raw[6] & 0x04 != 0 { TRAINER_SIZE as int } else { 0 }
}

/// Total length the image must have to hold both payloads.
pub open spec fn spec_total_len(raw: Seq<u8>) -> int {
    spec_prg_start(raw) + spec_prg_size(raw) + spec_chr_size(raw)
}

/// The image parses without error.
pub open spec fn spec_well_formed(raw: Seq<u8>) -> bool {
    &&& has_nes_tag(raw)
    &&& header_complete(raw)
    &&& spec_version(raw) == 0
    &&& raw.len() >= spec_total_len(raw)
}

/// Mapper id: upper nibble of header byte 7, over the upper nibble of header
/// byte 6 shifted down.
pub open spec fn spec_mapper(raw: Seq<u8>) -> u8 {
    (raw[7] & 0xF0) | ((raw[6] & 0xF0) >> 4)
}

/// Mirroring mode: four-screen wins over the vertical/horizontal bit.
pub open spec fn spec_mirroring(raw: Seq<u8>) -> Mirroring {
    if raw[6] & 0x08 != 0 {
        Mirroring::FourScreen
    } else if raw[6] & 0x01 != 0 {
        Mirroring::Vertical
    } else {
        Mirroring::Horizontal
    }
}

/// Copies `raw[start .. start + len]` into a fresh vector.
fn copy_range(raw: &[u8], start: usize, len: usize) -> (r: Vec<u8>)
    requires
        start + len <= raw@.len(),
    ensures
        r@ == raw@.subrange(start as int, start as int + len as int),
{
    let n: usize = raw.len();
    let mut out: Vec<u8> = Vec::new();
    let mut i: usize = 0;
    while i < len
        invariant
            start + len <= n == raw@.len(),
            i <= len,
            out@ == raw@.subrange(start as int, start as int + i as int),
        decreases len - i,
    {
        out.push(raw[start + i]);
        proof {
            assert(out@ =~= raw@.subrange(start as int, start as int + (i + 1) as int));
        }
        i = i + 1;
    }
    out
}

impl Rom {
    /// The program-ROM bytes, as a mathematical sequence.
    pub open spec fn prg(&self) -> Seq<u8> {
        self.prg_rom@
    }

    /// The character-ROM bytes, as a mathematical sequence.
    pub open spec fn chr(&self) -> Seq<u8> {
        self.chr_rom@
    }

    /// The mapper id carried by the header.
    pub open spec fn mapper_id(&self) -> u8 {
        self.mapper
    }

    /// The mirroring mode derived from the header.
    pub open spec fn mirroring(&self) -> Mirroring {
        self.screen_mirroring
    }

    /// Parses a container image: checks the tag and the version, then slices
    /// out the program-ROM and character-ROM payloads.
    pub fn new(raw: &[u8]) -> (r: Result<Rom, RomError>)
        ensures
            r is Ok <==> spec_well_formed(raw@),
            r matches Ok(rom) ==> {
                &&& rom.prg() == raw@.subrange(
                    spec_prg_start(raw@),
                    spec_prg_start(raw@) + spec_prg_size(raw@),
                )
                &&& rom.chr() == raw@.subrange(
                    spec_prg_start(raw@) + spec_prg_size(raw@),
                    spec_total_len(raw@),
                )
                &&& rom.mapper_id() == spec_mapper(raw@)
                &&& rom.mirroring() == spec_mirroring(raw@)
            },
            r matches Err(e) ==> {
                &&& e is BadTag <==> !has_nes_tag(raw@)
                &&& e is TruncatedPayload <==> has_nes_tag(raw@) && (!header_complete(raw@)
                    || (spec_version(raw@) == 0 && raw@.len() < spec_total_len(raw@)))
                &&& e is UnsupportedVersion <==> has_nes_tag(raw@) && header_complete(raw@)
                    && spec_version(raw@) != 0
            },
    {
        if raw.len() < 4 || raw[0] != 0x4E || raw[1] != 0x45 || raw[2] != 0x53 || raw[3] != 0x1A {
            return Err(RomError::BadTag);
        }
        if raw.len() < HEADER_SIZE {
            return Err(RomError::TruncatedPayload);
        }
        if raw[7] & 0x0C != 0 {
            return Err(RomError::UnsupportedVersion);
        }

        let prg_rom_size: usize = (raw[4] as usize) * PRG_ROM_PAGE_SIZE;
        let chr_rom_size: usize = (raw[5] as usize) * CHR_ROM_PAGE_SIZE;
        let prg_rom_start: usize = HEADER_SIZE + if raw[6] & 0x04 != 0 {
            TRAINER_SIZE
        } else {
            0
        };
        let chr_rom_start: usize = prg_rom_start + prg_rom_size;

        if raw.len() < chr_rom_start + chr_rom_size {
            return Err(RomError::TruncatedPayload);
        }

        Ok(Rom {
            prg_rom: copy_range(raw, prg_rom_start, prg_rom_size),
            chr_rom: copy_range(raw, chr_rom_start, chr_rom_size),
            mapper: (raw[7] & 0xF0) | ((raw[6] & 0xF0) >> 4),
            screen_mirroring: if raw[6] & 0x08 != 0 {
                Mirroring::FourScreen
            } else if raw[6] & 0x01 != 0 {
                Mirroring::Vertical
            } else {
                Mirroring::Horizontal
            },
        })
    }

    /// One byte of the program-ROM.
    pub fn read_prg(&self, addr: u16) -> (r: u8)
        requires
            addr < self.prg().len(),
        ensures
            r == self.prg()[addr as int],
    {
        self.prg_rom[addr as usize]
    }

    /// One byte of the character-ROM.
    pub fn reag_chr(&self, addr: u16) -> (r: u8)
        requires
            addr < self.chr().len(),
        ensures
            r == self.chr()[addr as int],
    {
        self.chr_rom[addr as usize]
    }

    pub fn prg_size(&self) -> (r: usize)
        ensures
            r == self.prg().len(),
    {
        self.prg_rom.len()
    }

    pub fn chr_size(&self) -> (r: usize)
        ensures
            r == self.chr().len(),
    {
        self.chr_rom.len()
    }

    pub fn clone_prg_rom(&self) -> (r: Vec<u8>)
        ensures
            r@ == self.prg(),
    {
        let mut out: Vec<u8> = Vec::new();
        let mut i: usize = 0;
        while i < self.prg_rom.len()
            invariant
                i <= self.prg_rom@.len(),
                out@ == self.prg_rom@.subrange(0, i as int),
            decreases self.prg_rom@.len() - i,
        {
            out.push(self.prg_rom[i]);
            proof {
                assert(out@ =~= self.prg_rom@.subrange(0, (i + 1) as int));
            }
            i = i + 1;
        }
        proof {
            assert(out@ =~= self.prg_rom@);
        }
        out
    }

    pub fn clone_chr_rom(&self) -> (r: Vec<u8>)
        ensures
            r@ == self.chr(),
    {
        let mut out: Vec<u8> = Vec::new();
        let mut i: usize = 0;
        while i < self.chr_rom.len()
            invariant
                i <= self.chr_rom@.len(),
                out@ == self.chr_rom@.subrange(0, i as int),
            decreases self.chr_rom@.len() - i,
        {
            out.push(self.chr_rom[i]);
            proof {
                assert(out@ =~= self.chr_rom@.subrange(0, (i + 1) as int));
            }
            i = i + 1;
        }
        proof {
            assert(out@ =~= self.chr_rom@);
        }
        out
    }

    pub fn get_mirroring(&self) -> (r: Mirroring)
        ensures
            r == self.mirroring(),
    {
        self.screen_mirroring
    }
}

} // verus!
