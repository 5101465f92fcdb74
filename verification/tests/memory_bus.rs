use lib_rust_boi::error::CoreError;
use lib_rust_boi::memory_bus::{
    MemoryBus, BOOT_ROM_SIZE, CARTRIDGE_RAM_BEGIN, CARTRIDGE_RAM_END, CARTRIDGE_RAM_SIZE,
    ECHO_RAM_BEGIN, ECHO_RAM_END, INTERNAL_RAM_BEGIN, INTERNAL_RAM_END,
    INTERRUPT_ENABLE_REGISTER, IO_REGISTERS_BEGIN, IO_REGISTERS_END, OAM_BEGIN, OAM_END,
    ROM_BANK_0_BEGIN, ROM_BANK_0_END, ROM_BANK_0_SIZE, ROM_BANK_N_BEGIN, ROM_BANK_N_END,
    ROM_BANK_N_SIZE, UNUSED_BEGIN, UNUSED_END, VRAM_BEGIN, VRAM_END, ZERO_PAGE_BEGIN,
    ZERO_PAGE_END,
};

fn numbered_cartridge() -> Vec<u8> {
    let mut game_rom: Vec<u8> = Vec::new();
    for i in 0..ROM_BANK_0_SIZE + ROM_BANK_N_SIZE {
        game_rom.push((i % 251) as u8);
    }
    game_rom
}

#[test]
fn test_write_cartridge_ram_begin() {
    let game_rom: Vec<u8> = [0; ROM_BANK_0_SIZE + ROM_BANK_N_SIZE].to_vec();
    let mut memory_bus = MemoryBus::new(None, game_rom).unwrap();
    let addr = CARTRIDGE_RAM_BEGIN as u16;
    let expected: u8 = 0xAB;
    memory_bus.write_byte(addr, expected).unwrap();
    let value = memory_bus.read_byte(addr);
    assert_eq!(value, expected);
}

#[test]
fn test_write_cartridge_ram_middle() {
    let game_rom: Vec<u8> = [0; ROM_BANK_0_SIZE + ROM_BANK_N_SIZE].to_vec();
    let mut memory_bus = MemoryBus::new(None, game_rom).unwrap();
    let addr = CARTRIDGE_RAM_BEGIN as u16 + (CARTRIDGE_RAM_SIZE as u16 / 2);
    let expected: u8 = 0x34;
    memory_bus.write_byte(addr, expected).unwrap();
    let value = memory_bus.read_byte(addr);
    assert_eq!(value, expected);
}

#[test]
fn test_write_cartridge_ram_end() {
    let game_rom: Vec<u8> = [0; ROM_BANK_0_SIZE + ROM_BANK_N_SIZE].to_vec();
    let mut memory_bus = MemoryBus::new(None, game_rom).unwrap();
    let addr = CARTRIDGE_RAM_END as u16;
    let expected: u8 = 0xBC;
    memory_bus.write_byte(addr, expected).unwrap();
    let value = memory_bus.read_byte(addr);
    assert_eq!(value, expected);
}

#[test]
fn test_write_rom_bank_0_begin() {
    let game_rom: Vec<u8> = [0; ROM_BANK_0_SIZE + ROM_BANK_N_SIZE].to_vec();
    let mut memory_bus = MemoryBus::new(None, game_rom).unwrap();
    let addr = ROM_BANK_0_BEGIN as u16;
    let expected: u8 = 0x42;
    memory_bus.write_byte(addr, expected).unwrap();
    let value = memory_bus.read_byte(addr);
    assert_eq!(value, expected);
}

#[test]
fn test_write_rom_bank_0_middle() {
    let game_rom: Vec<u8> = [0; ROM_BANK_0_SIZE + ROM_BANK_N_SIZE].to_vec();
    let mut memory_bus = MemoryBus::new(None, game_rom).unwrap();
    let addr = (ROM_BANK_0_BEGIN + (ROM_BANK_0_SIZE / 2)) as u16;
    let expected: u8 = 0x44;
    memory_bus.write_byte(addr, expected).unwrap();
    let value = memory_bus.read_byte(addr);
    assert_eq!(value, expected);
}

#[test]
fn test_write_rom_bank_0_end() {
    let game_rom: Vec<u8> = [0; ROM_BANK_0_SIZE + ROM_BANK_N_SIZE].to_vec();
    let mut memory_bus = MemoryBus::new(None, game_rom).unwrap();
    let addr = ROM_BANK_0_END as u16;
    let expected: u8 = 0x45;
    memory_bus.write_byte(addr, expected).unwrap();
    let value = memory_bus.read_byte(addr);
    assert_eq!(value, expected);
}

#[test]
fn region_sizes() {
    assert_eq!(BOOT_ROM_SIZE, 256);
    assert_eq!(ROM_BANK_0_SIZE, 16 * 1024);
    assert_eq!(ROM_BANK_N_SIZE, 16 * 1024);
    assert_eq!(CARTRIDGE_RAM_SIZE, 8 * 1024);
    assert_eq!(ROM_BANK_0_SIZE + ROM_BANK_N_SIZE, 32 * 1024);
}

#[test]
fn cartridge_shorter_than_two_banks_is_refused() {
    let short: Vec<u8> = vec![0; ROM_BANK_0_SIZE + ROM_BANK_N_SIZE - 1];
    assert_eq!(MemoryBus::new(None, short).err(), Some(CoreError::InvalidImageSize));
    assert_eq!(MemoryBus::new(None, Vec::new()).err(), Some(CoreError::InvalidImageSize));
}

#[test]
fn boot_rom_of_wrong_size_is_refused() {
    let game_rom: Vec<u8> = vec![0; ROM_BANK_0_SIZE + ROM_BANK_N_SIZE];
    let short: Vec<u8> = vec![0; BOOT_ROM_SIZE - 1];
    let long: Vec<u8> = vec![0; BOOT_ROM_SIZE + 1];
    assert_eq!(
        MemoryBus::new(Some(short), game_rom.clone()).err(),
        Some(CoreError::InvalidImageSize)
    );
    assert_eq!(
        MemoryBus::new(Some(long), game_rom.clone()).err(),
        Some(CoreError::InvalidImageSize)
    );
    assert!(MemoryBus::new(Some(vec![0; BOOT_ROM_SIZE]), game_rom).is_ok());
}

#[test]
fn cartridge_longer_than_two_banks_is_accepted() {
    let mut game_rom = numbered_cartridge();
    game_rom.extend_from_slice(&[0xEE; 100]);
    let memory_bus = MemoryBus::new(None, game_rom).unwrap();
    assert_eq!(memory_bus.read_byte(ROM_BANK_N_END as u16), (ROM_BANK_N_END % 251) as u8);
    assert_eq!(memory_bus.read_byte(VRAM_BEGIN as u16), 0);
}

#[test]
fn rom_banks_hold_the_cartridge_image() {
    let game_rom = numbered_cartridge();
    let memory_bus = MemoryBus::new(None, game_rom.clone()).unwrap();
    for address in ROM_BANK_0_BEGIN..=ROM_BANK_N_END {
        assert_eq!(memory_bus.read_byte(address as u16), game_rom[address]);
    }
    assert_eq!(memory_bus.read_byte(ROM_BANK_N_BEGIN as u16), (0x4000 % 251) as u8);
}

#[test]
fn ram_starts_zeroed() {
    let memory_bus = MemoryBus::new(None, numbered_cartridge()).unwrap();
    for address in VRAM_BEGIN..=INTERRUPT_ENABLE_REGISTER {
        assert_eq!(memory_bus.read_byte(address as u16), 0);
    }
}

#[test]
fn every_address_reads() {
    let memory_bus = MemoryBus::new(Some(vec![7; BOOT_ROM_SIZE]), numbered_cartridge()).unwrap();
    let mut total: u64 = 0;
    for address in 0..=u16::MAX {
        total += memory_bus.read_byte(address) as u64;
    }
    assert!(total > 0);
}

#[test]
fn unused_range_ignores_writes_and_reads_zero() {
    let mut memory_bus = MemoryBus::new(None, numbered_cartridge()).unwrap();
    assert_eq!(memory_bus.write_byte(UNUSED_END as u16, 0xAB), Ok(()));
    assert_eq!(memory_bus.read_byte(UNUSED_END as u16), 0);
    for address in UNUSED_BEGIN..=UNUSED_END {
        assert_eq!(memory_bus.write_byte(address as u16, 0xFF), Ok(()));
        assert_eq!(memory_bus.read_byte(address as u16), 0);
    }
}

#[test]
fn boot_rom_shadows_rom_bank_0_until_disabled() {
    let mut boot_rom: Vec<u8> = vec![0x11; BOOT_ROM_SIZE];
    boot_rom[0] = 0x31;
    boot_rom[0xFF] = 0x99;
    let mut game_rom: Vec<u8> = vec![0x22; ROM_BANK_0_SIZE + ROM_BANK_N_SIZE];
    game_rom[0] = 0xC3;
    let mut memory_bus = MemoryBus::new(Some(boot_rom), game_rom).unwrap();
    assert_eq!(memory_bus.read_byte(0x0000), 0x31);
    assert_eq!(memory_bus.read_byte(0x0001), 0x11);
    assert_eq!(memory_bus.read_byte(0x00FF), 0x99);
    assert_eq!(memory_bus.read_byte(0x0100), 0x22);
    memory_bus.disable_boot_rom();
    assert_eq!(memory_bus.read_byte(0x0000), 0xC3);
    assert_eq!(memory_bus.read_byte(0x0001), 0x22);
    assert_eq!(memory_bus.read_byte(0x00FF), 0x22);
    assert_eq!(memory_bus.read_byte(0x0100), 0x22);
}

#[test]
fn without_boot_rom_the_cartridge_is_read() {
    let mut game_rom: Vec<u8> = vec![0x22; ROM_BANK_0_SIZE + ROM_BANK_N_SIZE];
    game_rom[0] = 0xC3;
    let memory_bus = MemoryBus::new(None, game_rom).unwrap();
    assert_eq!(memory_bus.read_byte(0x0000), 0xC3);
}

#[test]
fn write_under_the_boot_rom_goes_to_rom_bank_0() {
    let boot_rom: Vec<u8> = vec![0x11; BOOT_ROM_SIZE];
    let game_rom: Vec<u8> = vec![0x22; ROM_BANK_0_SIZE + ROM_BANK_N_SIZE];
    let mut memory_bus = MemoryBus::new(Some(boot_rom), game_rom).unwrap();
    assert_eq!(memory_bus.write_byte(0x0010, 0x77), Ok(()));
    assert_eq!(memory_bus.read_byte(0x0010), 0x11);
    memory_bus.disable_boot_rom();
    assert_eq!(memory_bus.read_byte(0x0010), 0x77);
}

#[test]
fn internal_ram_and_zero_page_store_writes() {
    let mut memory_bus = MemoryBus::new(None, numbered_cartridge()).unwrap();
    for address in [INTERNAL_RAM_BEGIN, INTERNAL_RAM_END, ZERO_PAGE_BEGIN, ZERO_PAGE_END] {
        assert_eq!(memory_bus.write_byte(address as u16, 0x5A), Ok(()));
        assert_eq!(memory_bus.read_byte(address as u16), 0x5A);
    }
    assert_eq!(memory_bus.read_byte((INTERNAL_RAM_BEGIN + 1) as u16), 0);
    assert_eq!(memory_bus.read_byte((ZERO_PAGE_BEGIN + 1) as u16), 0);
}

#[test]
fn echo_ram_mirrors_internal_ram() {
    let mut memory_bus = MemoryBus::new(None, numbered_cartridge()).unwrap();
    memory_bus.write_byte(INTERNAL_RAM_BEGIN as u16, 0x12).unwrap();
    memory_bus.write_byte(0xDDFF, 0x34).unwrap();
    assert_eq!(memory_bus.read_byte(ECHO_RAM_BEGIN as u16), 0x12);
    assert_eq!(memory_bus.read_byte(ECHO_RAM_END as u16), 0x34);
    assert_eq!(memory_bus.read_byte((ECHO_RAM_BEGIN + 1) as u16), 0);
}

#[test]
fn echo_ram_is_read_only() {
    let mut memory_bus = MemoryBus::new(None, numbered_cartridge()).unwrap();
    memory_bus.write_byte(INTERNAL_RAM_BEGIN as u16, 0x12).unwrap();
    assert_eq!(memory_bus.write_byte(ECHO_RAM_BEGIN as u16, 0x99), Ok(()));
    assert_eq!(memory_bus.read_byte(ECHO_RAM_BEGIN as u16), 0x12);
    assert_eq!(memory_bus.read_byte(INTERNAL_RAM_BEGIN as u16), 0x12);
}

#[test]
fn rom_bank_n_is_read_only() {
    let game_rom = numbered_cartridge();
    let mut memory_bus = MemoryBus::new(None, game_rom.clone()).unwrap();
    for address in [ROM_BANK_N_BEGIN, ROM_BANK_N_BEGIN + 0x1234, ROM_BANK_N_END] {
        assert_eq!(memory_bus.write_byte(address as u16, 0xFF), Ok(()));
        assert_eq!(memory_bus.read_byte(address as u16), game_rom[address]);
    }
}

#[test]
fn reserved_regions_ignore_writes_and_read_zero() {
    let mut memory_bus = MemoryBus::new(None, numbered_cartridge()).unwrap();
    for address in [VRAM_BEGIN, VRAM_END, OAM_BEGIN, OAM_END, IO_REGISTERS_BEGIN, IO_REGISTERS_END]
    {
        assert_eq!(memory_bus.write_byte(address as u16, 0xFF), Ok(()));
        assert_eq!(memory_bus.read_byte(address as u16), 0);
    }
}

#[test]
fn interrupt_enable_register_refuses_writes() {
    let mut memory_bus = MemoryBus::new(None, numbered_cartridge()).unwrap();
    assert_eq!(
        memory_bus.write_byte(INTERRUPT_ENABLE_REGISTER as u16, 0x01),
        Err(CoreError::UnmappedWrite { address: 0xFFFF })
    );
    assert_eq!(memory_bus.read_byte(INTERRUPT_ENABLE_REGISTER as u16), 0);
}

#[test]
fn only_the_interrupt_enable_register_refuses_writes() {
    let mut memory_bus = MemoryBus::new(None, numbered_cartridge()).unwrap();
    for address in 0..u16::MAX {
        assert_eq!(memory_bus.write_byte(address, 0x01), Ok(()));
    }
}

#[test]
fn a_write_changes_no_other_address() {
    let game_rom = numbered_cartridge();
    let mut memory_bus = MemoryBus::new(None, game_rom.clone()).unwrap();
    memory_bus.write_byte(0xA123, 0x77).unwrap();
    for address in 0..=u16::MAX {
        let expected: u8 = if address == 0xA123 {
            0x77
        } else if (address as usize) <= ROM_BANK_N_END {
            game_rom[address as usize]
        } else {
            0
        };
        assert_eq!(memory_bus.read_byte(address), expected);
    }
}
