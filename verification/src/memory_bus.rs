//! The memory bus: the 16-bit address space, split into fixed regions, each
//! with its own storage and access rule.

use vstd::prelude::*;
use crate::error::CoreError;

verus! {

// The regions of the address space, each by its first and last address.
// The boot overlay lies over the start of ROM bank 0; the others follow one
// another.
pub const BOOT_ROM_BEGIN: usize = 0x00;
pub const BOOT_ROM_END: usize = 0xFF;
pub const BOOT_ROM_SIZE: usize = BOOT_ROM_END - BOOT_ROM_BEGIN + 1;

pub const ROM_BANK_0_BEGIN: usize = 0x0000;
pub const ROM_BANK_0_END: usize = 0x3FFF;
pub const ROM_BANK_0_SIZE: usize = ROM_BANK_0_END - ROM_BANK_0_BEGIN + 1;

pub const ROM_BANK_N_BEGIN: usize = 0x4000;
pub const ROM_BANK_N_END: usize = 0x7FFF;
pub const ROM_BANK_N_SIZE: usize = ROM_BANK_N_END - ROM_BANK_N_BEGIN + 1;

pub const VRAM_BEGIN: usize = 0x8000;
pub const VRAM_END: usize = 0x9FFF;
pub const VRAM_SIZE: usize = VRAM_END - VRAM_BEGIN + 1;

pub const CARTRIDGE_RAM_BEGIN: usize = 0xA000;
pub const CARTRIDGE_RAM_END: usize = 0xBFFF;
pub const CARTRIDGE_RAM_SIZE: usize = CARTRIDGE_RAM_END - CARTRIDGE_RAM_BEGIN + 1;

pub const INTERNAL_RAM_BEGIN: usize = 0xC000;
pub const INTERNAL_RAM_END: usize = 0xDFFF;
pub const INTERNAL_RAM_SIZE: usize = INTERNAL_RAM_END - INTERNAL_RAM_BEGIN + 1;

pub const ECHO_RAM_BEGIN: usize = 0xE000;
pub const ECHO_RAM_END: usize = 0xFDFF;

pub const OAM_BEGIN: usize = 0xFE00;
pub const OAM_END: usize = 0xFE9F;
pub const OAM_SIZE: usize = OAM_END - OAM_BEGIN + 1;

pub const UNUSED_BEGIN: usize = 0xFEA0;
pub const UNUSED_END: usize = 0xFEFF;

pub const IO_REGISTERS_BEGIN: usize = 0xFF00;
pub const IO_REGISTERS_END: usize = 0xFF7F;

pub const ZERO_PAGE_BEGIN: usize = 0xFF80;
pub const ZERO_PAGE_END: usize = 0xFFFE;
pub const ZERO_PAGE_SIZE: usize = ZERO_PAGE_END - ZERO_PAGE_BEGIN + 1;

pub const INTERRUPT_ENABLE_REGISTER: usize = 0xFFFF;

// Where the handlers of the first three interrupts start.
pub const VBLANK_VECTOR: u16 = 0x40;
pub const LCDSTAT_VECTOR: u16 = 0x48;
pub const TIMER_VECTOR: u16 = 0x50;

/// What a bus holds, as mathematics: one sequence of bytes for each region
/// that has storage, and the boot overlay while it is present.
pub struct MemoryMap {
    pub boot_rom: Option<Seq<u8>>,
    pub rom_bank_0: Seq<u8>,
    pub rom_bank_n: Seq<u8>,
    pub cartridge_ram: Seq<u8>,
    pub internal_ram: Seq<u8>,
    pub zero_page: Seq<u8>,
}

/// Whether the two images are of a size that a bus can be built from: an
/// overlay, if there is one, of exactly its fixed size, and a cartridge
/// image that fills both ROM banks.
pub open spec fn images_fit(boot_rom: Option<Seq<u8>>, game_rom: Seq<u8>) -> bool {
    &&& boot_rom matches Some(image) ==> image.len() == BOOT_ROM_SIZE
    &&& game_rom.len() >= ROM_BANK_0_SIZE + ROM_BANK_N_SIZE
}

/// Whether the bus takes a write to `address`. Only the interrupt-enable
/// register does not.
pub open spec fn accepts_write(address: u16) -> bool {
    address != INTERRUPT_ENABLE_REGISTER
}

/// Whether a write to `address` is stored: the address lies in ROM bank 0,
/// cartridge RAM, internal RAM or the zero page.
pub open spec fn stores_write(address: u16) -> bool {
    ||| address <= ROM_BANK_0_END
    ||| CARTRIDGE_RAM_BEGIN <= address <= CARTRIDGE_RAM_END
    ||| INTERNAL_RAM_BEGIN <= address <= INTERNAL_RAM_END
    ||| ZERO_PAGE_BEGIN <= address <= ZERO_PAGE_END
}

/// The echo address that mirrors an internal RAM address, where there is
/// one: the echo range is shorter than internal RAM, so the top of internal
/// RAM has no mirror.
pub open spec fn echo_of(address: u16) -> Option<u16> {
    if INTERNAL_RAM_BEGIN <= address && address + (ECHO_RAM_BEGIN - INTERNAL_RAM_BEGIN)
        <= ECHO_RAM_END {
        Some((address + (ECHO_RAM_BEGIN - INTERNAL_RAM_BEGIN)) as u16)
    } else {
        None
    }
}

impl MemoryMap {
    /// Every region has its fixed length.
    pub open spec fn wf(self) -> bool {
        &&& self.boot_rom matches Some(image) ==> image.len() == BOOT_ROM_SIZE
        &&& self.rom_bank_0.len() == ROM_BANK_0_SIZE
        &&& self.rom_bank_n.len() == ROM_BANK_N_SIZE
        &&& self.cartridge_ram.len() == CARTRIDGE_RAM_SIZE
        &&& self.internal_ram.len() == INTERNAL_RAM_SIZE
        &&& self.zero_page.len() == ZERO_PAGE_SIZE
    }

    /// The map right after construction: the overlay as given, the two ROM
    /// banks taken from the start of the cartridge image, all RAM zero.
    pub open spec fn initial(boot_rom: Option<Seq<u8>>, game_rom: Seq<u8>) -> MemoryMap {
        MemoryMap {
            boot_rom,
            rom_bank_0: game_rom.subrange(0, ROM_BANK_0_SIZE as int),
            rom_bank_n: game_rom.subrange(
                ROM_BANK_0_SIZE as int,
                ROM_BANK_0_SIZE + ROM_BANK_N_SIZE,
            ),
            cartridge_ram: Seq::new(CARTRIDGE_RAM_SIZE as nat, |i: int| 0u8),
            internal_ram: Seq::new(INTERNAL_RAM_SIZE as nat, |i: int| 0u8),
            zero_page: Seq::new(ZERO_PAGE_SIZE as nat, |i: int| 0u8),
        }
    }

    /// The byte that a read of `address` returns.
    ///
    /// While the overlay is present it shadows the first bytes of ROM bank 0.
    /// Echo RAM mirrors the start of internal RAM. Video RAM, OAM, the unused
    /// range, the I/O registers and the interrupt-enable register have no
    /// storage here and read as 0.
    pub open spec fn read(self, address: u16) -> u8 {
        if address <= BOOT_ROM_END && self.boot_rom is Some {
            self.boot_rom->0[address as int]
        } else if address <= ROM_BANK_0_END {
            self.rom_bank_0[address as int]
        } else if address <= ROM_BANK_N_END {
            self.rom_bank_n[address - ROM_BANK_N_BEGIN]
        } else if CARTRIDGE_RAM_BEGIN <= address <= CARTRIDGE_RAM_END {
            self.cartridge_ram[address - CARTRIDGE_RAM_BEGIN]
        } else if INTERNAL_RAM_BEGIN <= address <= INTERNAL_RAM_END {
            self.internal_ram[address - INTERNAL_RAM_BEGIN]
        } else if ECHO_RAM_BEGIN <= address <= ECHO_RAM_END {
            self.internal_ram[address - ECHO_RAM_BEGIN]
        } else if ZERO_PAGE_BEGIN <= address <= ZERO_PAGE_END {
            self.zero_page[address - ZERO_PAGE_BEGIN]
        } else {
            0
        }
    }

    /// The map after an accepted write of `byte` to `address`.
    ///
    /// ROM bank 0, cartridge RAM, internal RAM and the zero page store the
    /// byte; a write below the end of the overlay goes to ROM bank 0 under
    /// it. ROM bank N and echo RAM are read-only, video RAM, OAM and the I/O
    /// registers have no storage here, and the unused range ignores writes:
    /// a write to any of these changes nothing. In particular a write to
    /// echo RAM is dropped, not passed on to internal RAM.
    pub open spec fn write(self, address: u16, byte: u8) -> MemoryMap {
        if address <= ROM_BANK_0_END {
            MemoryMap { rom_bank_0: self.rom_bank_0.update(address as int, byte), ..self }
        } else if CARTRIDGE_RAM_BEGIN <= address <= CARTRIDGE_RAM_END {
            MemoryMap {
                cartridge_ram: self.cartridge_ram.update(address - CARTRIDGE_RAM_BEGIN, byte),
                ..self
            }
        } else if INTERNAL_RAM_BEGIN <= address <= INTERNAL_RAM_END {
            MemoryMap {
                internal_ram: self.internal_ram.update(address - INTERNAL_RAM_BEGIN, byte),
                ..self
            }
        } else if ZERO_PAGE_BEGIN <= address <= ZERO_PAGE_END {
            MemoryMap { zero_page: self.zero_page.update(address - ZERO_PAGE_BEGIN, byte), ..self }
        } else {
            self
        }
    }

    /// The map once the boot overlay is disabled.
    pub open spec fn without_boot_rom(self) -> MemoryMap {
        MemoryMap { boot_rom: None, ..self }
    }
}

/// The regions follow one another without gap or overlap from the first
/// address to the last; the boot overlay alone lies over another region,
/// the start of ROM bank 0.
pub proof fn lemma_regions_partition()
    ensures
        ROM_BANK_0_BEGIN == 0,
        ROM_BANK_N_BEGIN == ROM_BANK_0_END + 1,
        VRAM_BEGIN == ROM_BANK_N_END + 1,
        CARTRIDGE_RAM_BEGIN == VRAM_END + 1,
        INTERNAL_RAM_BEGIN == CARTRIDGE_RAM_END + 1,
        ECHO_RAM_BEGIN == INTERNAL_RAM_END + 1,
        OAM_BEGIN == ECHO_RAM_END + 1,
        UNUSED_BEGIN == OAM_END + 1,
        IO_REGISTERS_BEGIN == UNUSED_END + 1,
        ZERO_PAGE_BEGIN == IO_REGISTERS_END + 1,
        INTERRUPT_ENABLE_REGISTER == ZERO_PAGE_END + 1,
        INTERRUPT_ENABLE_REGISTER == u16::MAX,
        ROM_BANK_0_BEGIN == BOOT_ROM_BEGIN,
        BOOT_ROM_END < ROM_BANK_0_END,
{
}

/// A write keeps every region at its length.
pub proof fn lemma_write_keeps_wf(map: MemoryMap, address: u16, byte: u8)
    requires
        map.wf(),
    ensures
        map.write(address, byte).wf(),
{
}

/// A byte written to a region that stores it is the byte read back there,
/// unless the boot overlay shadows the address.
pub proof fn lemma_read_after_write(map: MemoryMap, address: u16, byte: u8)
    requires
        map.wf(),
        stores_write(address),
        address > BOOT_ROM_END || map.boot_rom is None,
    ensures
        map.write(address, byte).read(address) == byte,
{
}

/// A write to internal RAM shows at the echo address that mirrors it.
pub proof fn lemma_echo_after_write(map: MemoryMap, address: u16, byte: u8)
    requires
        map.wf(),
        echo_of(address) is Some,
    ensures
        map.write(address, byte).read(echo_of(address)->0) == byte,
{
}

/// A write changes what is read at no other address, but for the echo of
/// an internal RAM address.
pub proof fn lemma_write_elsewhere(map: MemoryMap, address: u16, byte: u8, other: u16)
    requires
        map.wf(),
        other != address,
        echo_of(address) != Some(other),
    ensures
        map.write(address, byte).read(other) == map.read(other),
{
}

/// A write to an address that does not store it changes nothing at all.
pub proof fn lemma_write_ignored(map: MemoryMap, address: u16, byte: u8)
    requires
        !stores_write(address),
    ensures
        map.write(address, byte) == map,
{
}

/// The unused range always reads 0, and a write to it is a no-op.
pub proof fn lemma_unused_range(map: MemoryMap, address: u16, byte: u8)
    requires
        UNUSED_BEGIN <= address <= UNUSED_END,
    ensures
        map.read(address) == 0,
        map.write(address, byte) == map,
        map.write(address, byte).read(address) == 0,
{
}

/// While the boot overlay is present, a read in its range returns its byte,
/// whatever ROM bank 0 holds there, even right after a write to the same
/// address; once it is disabled, the same read returns the byte of ROM
/// bank 0. Reads above the overlay are the same either way.
pub proof fn lemma_boot_rom_priority(map: MemoryMap, image: Seq<u8>, address: u16, byte: u8)
    requires
        map.wf(),
        map.boot_rom == Some(image),
    ensures
        address <= BOOT_ROM_END ==> map.read(address) == image[address as int],
        address <= BOOT_ROM_END ==> map.write(address, byte).read(address) == image[address as int],
        address <= BOOT_ROM_END ==> map.without_boot_rom().read(address)
            == map.rom_bank_0[address as int],
        address <= BOOT_ROM_END ==> map.write(address, byte).without_boot_rom().read(address)
            == byte,
        address > BOOT_ROM_END ==> map.without_boot_rom().read(address) == map.read(address),
{
}

/// The map right after construction is well formed, reads the cartridge
/// image in both ROM banks where no overlay shadows it, and reads 0 in all
/// RAM.
pub proof fn lemma_initial_map(boot_rom: Option<Seq<u8>>, game_rom: Seq<u8>, address: u16)
    requires
        images_fit(boot_rom, game_rom),
    ensures
        MemoryMap::initial(boot_rom, game_rom).wf(),
        address <= ROM_BANK_N_END && (address > BOOT_ROM_END || boot_rom is None)
            ==> MemoryMap::initial(boot_rom, game_rom).read(address) == game_rom[address as int],
        address >= VRAM_BEGIN ==> MemoryMap::initial(boot_rom, game_rom).read(address) == 0,
{
}

/// The bus. It alone owns the emulated memory.
pub struct MemoryBus {
    boot_rom: Option<[u8; BOOT_ROM_SIZE]>,
    rom_bank_0: [u8; ROM_BANK_0_SIZE],
    rom_bank_n: [u8; ROM_BANK_N_SIZE],
    cartridge_ram: [u8; CARTRIDGE_RAM_SIZE],
    internal_ram: [u8; INTERNAL_RAM_SIZE],
    zero_page: [u8; ZERO_PAGE_SIZE],
}

impl View for MemoryBus {
    type V = MemoryMap;

    closed spec fn view(&self) -> MemoryMap {
        MemoryMap {
            boot_rom: match self.boot_rom {
                Some(image) => Some(image@),
                None => None,
            },
            rom_bank_0: self.rom_bank_0@,
            rom_bank_n: self.rom_bank_n@,
            cartridge_ram: self.cartridge_ram@,
            internal_ram: self.internal_ram@,
            zero_page: self.zero_page@,
        }
    }
}

/// The bytes of the boot overlay handed to a constructor, if one is handed.
pub open spec fn overlay_view(boot_rom: Option<Vec<u8>>) -> Option<Seq<u8>> {
    match boot_rom {
        Some(image) => Some(image@),
        None => None,
    }
}

impl MemoryBus {
    /// The map of every bus is well formed.
    pub proof fn lemma_wf(&self)
        ensures
            self@.wf(),
    {
    }

    /// Builds the bus from an optional boot overlay and a cartridge image.
    ///
    /// Fails with `InvalidImageSize` exactly when the overlay is not of its
    /// fixed size or the cartridge image does not fill both ROM banks; bytes
    /// of the image beyond the two banks are not used.
    pub fn new(boot_rom_buffer: Option<Vec<u8>>, game_rom: Vec<u8>) -> (result: Result<
        MemoryBus,
        CoreError,
    >)
        ensures
            result is Ok <==> images_fit(overlay_view(boot_rom_buffer), game_rom@),
            result matches Ok(bus) ==> bus@ == MemoryMap::initial(
                overlay_view(boot_rom_buffer),
                game_rom@,
            ) && bus@.wf(),
            result matches Err(error) ==> error == CoreError::InvalidImageSize,
    {
        let boot_rom = match &boot_rom_buffer {
            Some(buffer) => {
                if buffer.len() != BOOT_ROM_SIZE {
                    return Err(CoreError::InvalidImageSize);
                }
                let mut image = [0u8; BOOT_ROM_SIZE];
                for i in 0..BOOT_ROM_SIZE
                    invariant
                        buffer.len() == BOOT_ROM_SIZE,
                        forall|j: int| 0 <= j < i ==> image@[j] == buffer@[j],
                {
                    image[i] = buffer[i];
                }
                assert(image@ =~= buffer@);
                Some(image)
            },
            None => None,
        };
        if game_rom.len() < ROM_BANK_0_SIZE + ROM_BANK_N_SIZE {
            return Err(CoreError::InvalidImageSize);
        }
        let mut rom_bank_0 = [0u8; ROM_BANK_0_SIZE];
        for i in 0..ROM_BANK_0_SIZE
            invariant
                game_rom.len() >= ROM_BANK_0_SIZE + ROM_BANK_N_SIZE,
                forall|j: int| 0 <= j < i ==> rom_bank_0@[j] == game_rom@[j],
        {
            rom_bank_0[i] = game_rom[i];
        }
        let mut rom_bank_n = [0u8; ROM_BANK_N_SIZE];
        for i in 0..ROM_BANK_N_SIZE
            invariant
                game_rom.len() >= ROM_BANK_0_SIZE + ROM_BANK_N_SIZE,
                forall|j: int| 0 <= j < i ==> rom_bank_n@[j] == game_rom@[ROM_BANK_0_SIZE + j],
        {
            rom_bank_n[i] = game_rom[ROM_BANK_0_SIZE + i];
        }
        let bus = MemoryBus {
            boot_rom,
            rom_bank_0,
            rom_bank_n,
            cartridge_ram: [0u8; CARTRIDGE_RAM_SIZE],
            internal_ram: [0u8; INTERNAL_RAM_SIZE],
            zero_page: [0u8; ZERO_PAGE_SIZE],
        };
        proof {
            let initial = MemoryMap::initial(overlay_view(boot_rom_buffer), game_rom@);
            assert(bus@.boot_rom == initial.boot_rom);
            assert(bus@.rom_bank_0 =~= initial.rom_bank_0);
            assert(bus@.rom_bank_n =~= initial.rom_bank_n);
            assert(bus@.cartridge_ram =~= initial.cartridge_ram);
            assert(bus@.internal_ram =~= initial.internal_ram);
            assert(bus@.zero_page =~= initial.zero_page);
        }
        Ok(bus)
    }

    /// Reads the byte at `address`. Every address can be read.
    pub fn read_byte(&self, address: u16) -> (byte: u8)
        ensures
            byte == self@.read(address),
    {
        let address = address as usize;
        match address {
            BOOT_ROM_BEGIN..=BOOT_ROM_END => {
                match &self.boot_rom {
                    Some(boot_rom) => boot_rom[address],
                    None => self.rom_bank_0[address],
                }
            },
            ROM_BANK_0_BEGIN..=ROM_BANK_0_END => self.rom_bank_0[address],
            ROM_BANK_N_BEGIN..=ROM_BANK_N_END => self.rom_bank_n[address - ROM_BANK_N_BEGIN],
            VRAM_BEGIN..=VRAM_END => 0,
            CARTRIDGE_RAM_BEGIN..=CARTRIDGE_RAM_END => self.cartridge_ram[address
                - CARTRIDGE_RAM_BEGIN],
            INTERNAL_RAM_BEGIN..=INTERNAL_RAM_END => self.internal_ram[address
                - INTERNAL_RAM_BEGIN],
            ECHO_RAM_BEGIN..=ECHO_RAM_END => self.internal_ram[address - ECHO_RAM_BEGIN],
            OAM_BEGIN..=OAM_END => 0,
            UNUSED_BEGIN..=UNUSED_END => 0,
            IO_REGISTERS_BEGIN..=IO_REGISTERS_END => 0,
            ZERO_PAGE_BEGIN..=ZERO_PAGE_END => self.zero_page[address - ZERO_PAGE_BEGIN],
            // What is left is the interrupt-enable register.
            _ => 0,
        }
    }

    /// Writes `byte` to `address`.
    ///
    /// Fails with `UnmappedWrite` exactly for the interrupt-enable register,
    /// and then changes nothing.
    pub fn write_byte(&mut self, address: u16, byte: u8) -> (result: Result<(), CoreError>)
        ensures
            result is Ok <==> accepts_write(address),
            result is Ok ==> final(self)@ == old(self)@.write(address, byte),
            final(self)@.wf(),
            result matches Err(error) ==> error == (CoreError::UnmappedWrite { address })
                && *final(self) == *old(self),
    {
        let target = address as usize;
        match target {
            ROM_BANK_0_BEGIN..=ROM_BANK_0_END => {
                self.rom_bank_0[target] = byte;
            },
            ROM_BANK_N_BEGIN..=ROM_BANK_N_END => {},
            VRAM_BEGIN..=VRAM_END => {},
            CARTRIDGE_RAM_BEGIN..=CARTRIDGE_RAM_END => {
                self.cartridge_ram[target - CARTRIDGE_RAM_BEGIN] = byte;
            },
            INTERNAL_RAM_BEGIN..=INTERNAL_RAM_END => {
                self.internal_ram[target - INTERNAL_RAM_BEGIN] = byte;
            },
            ECHO_RAM_BEGIN..=ECHO_RAM_END => {},
            OAM_BEGIN..=OAM_END => {},
            UNUSED_BEGIN..=UNUSED_END => {},
            IO_REGISTERS_BEGIN..=IO_REGISTERS_END => {},
            ZERO_PAGE_BEGIN..=ZERO_PAGE_END => {
                self.zero_page[target - ZERO_PAGE_BEGIN] = byte;
            },
            // What is left is the interrupt-enable register.
            _ => {
                return Err(CoreError::UnmappedWrite { address });
            },
        }
        Ok(())
    }

    /// Disables the boot overlay: from now on the first bytes of ROM bank 0
    /// are read from the cartridge image.
    pub fn disable_boot_rom(&mut self)
        ensures
            final(self)@ == old(self)@.without_boot_rom(),
            final(self)@.wf(),
    {
        self.boot_rom = None;
    }
}

} // verus!
