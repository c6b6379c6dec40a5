use nes_rs::cpu::{CpuError, CPU};
use nes_rs::ines::INESHeader;
use nes_rs::memory::Memory;
use nes_rs::nes::{NESRuntimeOptions, NES};

fn options(program_counter: Option<u16>) -> NESRuntimeOptions {
    NESRuntimeOptions {
        program_counter,
        cpu_log: None,
        verbose: false,
        debugging: false,
    }
}

fn machine(pc: u16, program: &[u8]) -> (CPU, Memory) {
    let mut memory = Memory::new();
    memory.memdump(pc as usize, program);
    (CPU::new(options(None), pc), memory)
}

fn rom_with_prg(banks: u8, prg: &[u8]) -> Vec<u8> {
    let mut rom = vec![0x4E, 0x45, 0x53, 0x1A, banks, 0, 0, 0, 0, 0, 0, 0, 0, 0, 0, 0];
    rom.extend_from_slice(prg);
    rom
}

#[test]
fn reset_vector_after_load() {
    let mut prg = vec![0u8; 0x4000];
    prg[0x3FFC] = 0x00;
    prg[0x3FFD] = 0x80;
    let rom = rom_with_prg(1, &prg);
    let header = INESHeader::new(&rom).unwrap();
    let nes = NES::new(rom, header, options(None));
    assert_eq!(nes.cpu.pc, 0x8000);
    assert_eq!(nes.cpu.sp, 0xFD);
    assert_eq!(nes.cpu.p, 0x24);
}

#[test]
fn reset_vector_can_be_overridden() {
    let mut prg = vec![0u8; 0x4000];
    prg[0x3FFC] = 0x00;
    prg[0x3FFD] = 0x80;
    let rom = rom_with_prg(1, &prg);
    let header = INESHeader::new(&rom).unwrap();
    let nes = NES::new(rom, header, options(Some(0xC000)));
    assert_eq!(nes.cpu.pc, 0xC000);
}

#[test]
fn single_prg_bank_is_mirrored() {
    let mut prg = vec![0u8; 0x4000];
    prg[0] = 0xAB;
    prg[0x3FFF] = 0xCD;
    let rom = rom_with_prg(1, &prg);
    let header = INESHeader::new(&rom).unwrap();
    let mut nes = NES::new(rom, header, options(None));
    assert_eq!(nes.memory.read_u8(0x8000), 0xAB);
    assert_eq!(nes.memory.read_u8(0xC000), 0xAB);
    assert_eq!(nes.memory.read_u8(0xFFFF), 0xCD);
}

#[test]
fn two_prg_banks_and_trainer() {
    let mut rom = vec![0x4E, 0x45, 0x53, 0x1A, 2, 0, 0x04, 0, 0, 0, 0, 0, 0, 0, 0, 0];
    let mut trainer = vec![0u8; 512];
    trainer[0] = 0x11;
    rom.extend_from_slice(&trainer);
    let mut prg = vec![0u8; 0x8000];
    prg[0] = 0x22;
    prg[0x4000] = 0x33;
    rom.extend_from_slice(&prg);
    let header = INESHeader::new(&rom).unwrap();
    assert!(header.has_trainer());
    let mut nes = NES::new(rom, header, options(Some(0x8000)));
    assert_eq!(nes.memory.read_u8(0x7000), 0x11);
    assert_eq!(nes.memory.read_u8(0x8000), 0x22);
    assert_eq!(nes.memory.read_u8(0xC000), 0x33);
}

#[test]
fn lda_immediate() {
    let (mut cpu, mut memory) = machine(0x8000, &[0xA9, 0x00]);
    assert_eq!(cpu.a, 0);
    assert_eq!(cpu.p, 0x24);
    let cycles = cpu.execute(&mut memory).unwrap();
    assert_eq!(cycles, 2);
    assert_eq!(cpu.a, 0);
    assert!(cpu.zero_flag_set());
    assert!(!cpu.negative_flag_set());
    assert_eq!(cpu.pc, 0x8002);
    assert_eq!(cpu.cycles, 0);
    assert_eq!(cpu.ppu_dots, 6);
}

#[test]
fn lda_immediate_negative() {
    let (mut cpu, mut memory) = machine(0x8000, &[0xA9, 0x80]);
    cpu.execute(&mut memory).unwrap();
    assert_eq!(cpu.a, 0x80);
    assert!(!cpu.zero_flag_set());
    assert!(cpu.negative_flag_set());
}

#[test]
fn branch_page_cross() {
    let (mut cpu, mut memory) = machine(0x80F0, &[0xB0, 0x10]);
    cpu.set_carry_flag();
    let cycles = cpu.execute(&mut memory).unwrap();
    assert_eq!(cpu.pc, 0x8102);
    assert_eq!(cycles, 5);
}

#[test]
fn branch_not_taken_and_taken_same_page() {
    let (mut cpu, mut memory) = machine(0x8000, &[0xB0, 0x10]);
    cpu.unset_carry_flag();
    assert_eq!(cpu.execute(&mut memory).unwrap(), 2);
    assert_eq!(cpu.pc, 0x8002);
    let (mut cpu, mut memory) = machine(0x8000, &[0x90, 0x10]);
    cpu.unset_carry_flag();
    assert_eq!(cpu.execute(&mut memory).unwrap(), 3);
    assert_eq!(cpu.pc, 0x8012);
}

#[test]
fn branch_backwards() {
    let (mut cpu, mut memory) = machine(0x8010, &[0xD0, 0xFE]);
    cpu.unset_zero_flag();
    assert_eq!(cpu.execute(&mut memory).unwrap(), 3);
    assert_eq!(cpu.pc, 0x8010);
}

#[test]
fn indirect_jmp_bug() {
    let (mut cpu, mut memory) = machine(0x8000, &[0x6C, 0xFF, 0x02]);
    memory.write_u8(0x02FF, 0x34);
    memory.write_u8(0x0200, 0x12);
    memory.write_u8(0x0300, 0xFF);
    let cycles = cpu.execute(&mut memory).unwrap();
    assert_eq!(cpu.pc, 0x1234);
    assert_eq!(cycles, 5);
}

#[test]
fn indirect_jmp_inside_page() {
    let (mut cpu, mut memory) = machine(0x8000, &[0x6C, 0x10, 0x02]);
    memory.write_u8(0x0210, 0x78);
    memory.write_u8(0x0211, 0x56);
    cpu.execute(&mut memory).unwrap();
    assert_eq!(cpu.pc, 0x5678);
}

#[test]
fn jsr_rts_round_trip() {
    let (mut cpu, mut memory) = machine(0xC000, &[0x20, 0x40, 0xC0]);
    memory.write_u8_unrestricted(0xC040, 0x60);
    assert_eq!(cpu.sp, 0xFD);
    assert_eq!(cpu.execute(&mut memory).unwrap(), 6);
    assert_eq!(cpu.pc, 0xC040);
    assert_eq!(cpu.sp, 0xFB);
    assert_eq!(memory.read_u8(0x01FD), 0xC0);
    assert_eq!(memory.read_u8(0x01FC), 0x02);
    assert_eq!(cpu.execute(&mut memory).unwrap(), 6);
    assert_eq!(cpu.pc, 0xC003);
    assert_eq!(cpu.sp, 0xFD);
}

#[test]
fn ram_mirror_write() {
    let mut memory = Memory::new();
    memory.write_u8(0x0005, 0x77);
    assert_eq!(memory.read_u8(0x0805), 0x77);
    assert_eq!(memory.read_u8(0x1005), 0x77);
    assert_eq!(memory.read_u8(0x1805), 0x77);
}

#[test]
fn ram_mirror_write_through_mirror() {
    let mut memory = Memory::new();
    memory.write_u8(0x1FFF, 0x42);
    assert_eq!(memory.read_u8(0x07FF), 0x42);
    assert_eq!(memory.read_u8(0x0FFF), 0x42);
}

#[test]
fn unknown_opcode_is_reported() {
    let (mut cpu, mut memory) = machine(0x8000, &[0x02]);
    let r = cpu.execute(&mut memory);
    assert_eq!(r, Err(CpuError::UnknownOpcode { pc: 0x8000, opcode: 0x02 }));
    assert_eq!(cpu.pc, 0x8000);
}

#[test]
fn ppu_dots_wrap_at_scanline() {
    let (mut cpu, mut memory) = machine(0x8000, &[0xEA]);
    cpu.ppu_dots = 340;
    cpu.execute(&mut memory).unwrap();
    assert_eq!(cpu.ppu_dots, (340 + 6) % 341);
}
