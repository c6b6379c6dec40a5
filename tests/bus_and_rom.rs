use nes_rs::cpu::CPU;
use nes_rs::ines::{parse_rom_header, INESHeader, Mapper, MirrorType};
use nes_rs::memory::{word_from_bytes, Memory, MiscRegisterStatus, PPURegisterStatus};
use nes_rs::nes::{required_rom_length, NESError, NESRuntimeOptions, NES};
use nes_rs::opcode::{decode_opcode, lookup_opcode, opcode_len, AddressingMode, Mnemonic};
use nes_rs::ppu::{PpuError, PPU};
use nes_rs::utils::{add_relative, is_negative, page, page_cross, PageCross};

fn options() -> NESRuntimeOptions {
    NESRuntimeOptions {
        program_counter: None,
        cpu_log: None,
        verbose: false,
        debugging: false,
    }
}

#[test]
fn stack_round_trip_u8_at_page_ends() {
    for sp in [0x00u8, 0xFF, 0x80] {
        for v in [0x00u8, 0x7F, 0xFF] {
            let mut memory = Memory::new();
            let mut cpu = CPU::new(options(), 0);
            cpu.sp = sp;
            memory.stack_push_u8(&mut cpu, v);
            assert_eq!(cpu.sp, sp.wrapping_sub(1));
            assert_eq!(memory.stack_pop_u8(&mut cpu), v);
            assert_eq!(cpu.sp, sp);
        }
    }
}

#[test]
fn stack_round_trip_u16_at_page_ends() {
    for sp in [0x00u8, 0x01, 0xFF, 0xFD] {
        let mut memory = Memory::new();
        let mut cpu = CPU::new(options(), 0);
        cpu.sp = sp;
        memory.stack_push_u16(&mut cpu, 0xBEEF);
        assert_eq!(cpu.sp, sp.wrapping_sub(2));
        assert_eq!(memory.read_u8(0x100 + sp as usize), 0xBE);
        assert_eq!(memory.read_u8(0x100 + sp.wrapping_sub(1) as usize), 0xEF);
        assert_eq!(memory.stack_pop_u16(&mut cpu), 0xBEEF);
        assert_eq!(cpu.sp, sp);
    }
}

#[test]
fn ppu_register_mirror() {
    let mut memory = Memory::new();
    memory.write_u8(0x2000 + 8 * 1023 + 3, 0x12);
    assert_eq!(memory.ppu_register_status(3), PPURegisterStatus::Written);
    memory.write_u8(0x2000 + 8 * 7 + 3, 0x13);
    assert_eq!(memory.ppu_register_status(3), PPURegisterStatus::WrittenTwice);
    memory.write_u8(0x2004, 0x66);
    assert_eq!(memory.read_u8(0x3FFC), 0x66);
    assert_eq!(memory.read_u8(0x200C), 0x66);
}

#[test]
fn ppu_register_permissions() {
    let mut memory = Memory::new();
    memory.write_u8(0x2000, 0x80);
    assert_eq!(memory.read_u8(0x2000), 0);
    assert_eq!(memory.read_u8_unrestricted(0x2000), 0x80);
    memory.write_u8(0x2002, 0x55);
    assert_eq!(memory.read_u8_unrestricted(0x2002), 0);
    assert_eq!(memory.read_u8(0x2002), 0);
    assert_eq!(memory.ppu_register_status(2), PPURegisterStatus::Written);
    let mut memory = Memory::new();
    memory.read_u8(0x2002);
    assert_eq!(memory.ppu_register_status(2), PPURegisterStatus::Read);
}

#[test]
fn unrestricted_reads_leave_touch_state() {
    let mut memory = Memory::new();
    memory.read_u8_unrestricted(0x2007);
    memory.read_u8_unrestricted(0x4015);
    assert_eq!(memory.ppu_register_status(7), PPURegisterStatus::Untouched);
    assert_eq!(memory.misc_register_status(0x15), MiscRegisterStatus::Untouched);
    memory.read_u8(0x4015);
    assert_eq!(memory.misc_register_status(0x15), MiscRegisterStatus::Read);
}

#[test]
fn read_after_write_keeps_written_state() {
    let mut memory = Memory::new();
    memory.write_u8(0x2007, 1);
    memory.read_u8(0x2007);
    assert_eq!(memory.ppu_register_status(7), PPURegisterStatus::Written);
}

#[test]
fn rom_regions_are_read_only() {
    let mut memory = Memory::new();
    memory.write_u8(0x8000, 0x12);
    memory.write_u8(0x5000, 0x12);
    assert_eq!(memory.read_u8(0x8000), 0);
    assert_eq!(memory.read_u8(0x5000), 0);
    memory.write_u8(0x6000, 0x12);
    assert_eq!(memory.read_u8(0x6000), 0x12);
    memory.write_u8(0x4014, 0x02);
    assert_eq!(memory.read_u8(0x4014), 0);
    assert_eq!(memory.misc_register(0x14), 0x02);
}

#[test]
fn words_are_little_endian() {
    assert_eq!(word_from_bytes(0x34, 0x12), 0x1234);
    let mut memory = Memory::new();
    memory.write_u16(0x0010, 0xABCD);
    assert_eq!(memory.read_u8(0x0010), 0xCD);
    assert_eq!(memory.read_u8(0x0011), 0xAB);
    assert_eq!(memory.read_u16(0x0010), 0xABCD);
    memory.write_u16_alt(0x0021, 0x1357);
    assert_eq!(memory.read_u16_alt(0x0021), 0x1357);
    assert_eq!(memory.read_u16(0x0020), 0x1357);
}

#[test]
fn wrapped_word_reads() {
    let mut memory = Memory::new();
    memory.write_u8(0x01FF, 0x34);
    memory.write_u8(0x0100, 0x12);
    memory.write_u8(0x0200, 0xFF);
    assert_eq!(memory.read_u16_wrapped_msb(0x01FF), 0x1234);
    assert_eq!(memory.read_u16_wrapped_msb_alt(0x0200), 0x1234);
    assert_eq!(memory.read_u16_wrapped_msb_unrestricted(0x01FF), 0x1234);
}

#[test]
fn header_parsing() {
    let mut rom = vec![0x4E, 0x45, 0x53, 0x1A, 2, 1, 0x13, 0x40, 0, 0, 0, 0, 0, 0, 0, 0];
    let header = INESHeader::new(&rom).unwrap();
    assert_eq!(header.prg_rom_size, 2);
    assert_eq!(header.chr_rom_size, 1);
    assert_eq!(header.mapper_number(), 0x41);
    assert!(matches!(header.mirror_type(), MirrorType::Vertical));
    assert!(header.has_persistent_ram());
    assert!(!header.has_trainer());
    rom[6] = 0x0A;
    rom[7] = 0;
    let header = INESHeader::new(&rom).unwrap();
    assert!(matches!(header.mirror_type(), MirrorType::Both));
    assert!(header.has_persistent_ram());
    assert_eq!(header.mapper_number(), 0);
    assert!(matches!(header.mapper(), Mapper::NROM));
    rom[6] = 0;
    assert!(matches!(INESHeader::new(&rom).unwrap().mirror_type(), MirrorType::Horizontal));
}

#[test]
fn header_rejects_bad_roms() {
    assert!(INESHeader::new(&[0x4E, 0x45, 0x53, 0x1A]).is_err());
    let rom = vec![0x4E, 0x45, 0x53, 0x1B, 1, 0, 0, 0, 0, 0, 0, 0, 0, 0, 0, 0];
    assert_eq!(
        INESHeader::new(&rom).err(),
        Some("rom does not contain iNES identifier and is invalid")
    );
    assert!(parse_rom_header(&rom).is_err());
    assert!(parse_rom_header(&[0x4E, 0x45, 0x53, 0x1A]).is_err());
    assert!(parse_rom_header(&[]).is_err());
    let mut good = rom.clone();
    good[3] = 0x1A;
    assert!(parse_rom_header(&good).is_ok());
}

#[test]
fn opcode_table() {
    let lda = decode_opcode(0xA9);
    assert_eq!(lda.mnemonic, Mnemonic::Lda);
    assert_eq!(lda.mode, AddressingMode::Immediate);
    assert_eq!(opcode_len(&lda), 2);
    assert_eq!(opcode_len(&decode_opcode(0x6C)), 3);
    assert_eq!(opcode_len(&decode_opcode(0x0A)), 1);
    assert!(lookup_opcode(0x02).is_none());
    let official = (0..=255u8).filter(|b| lookup_opcode(*b).is_some()).count();
    assert_eq!(official, 151);
}

#[test]
fn arithmetic_helpers() {
    assert!(is_negative(0x80));
    assert!(!is_negative(0x7F));
    assert_eq!(add_relative(0x8000, -2), 0x7FFE);
    assert_eq!(add_relative(0xFFFF, 1), 0x0000);
    assert_eq!(add_relative(0x0000, -128), 0xFF80);
    assert_eq!(page(0x12FF), 0x12);
    assert!(page_cross(0x10FF, 0x1100) == PageCross::Forwards);
    assert!(page_cross(0x1100, 0x10FF) == PageCross::Backwards);
    assert!(page_cross(0x1100, 0x11FF) == PageCross::Same);
}

#[test]
fn ppu_step_consumes_touch_state() {
    let mut memory = Memory::new();
    let mut ppu = PPU::new(options());
    assert_eq!(ppu.step(&mut memory), Ok(0));
    assert_eq!(ppu.ticks, 1);

    memory.write_u8(0x2000, 0x80);
    memory.write_u8(0x2003, 0x10);
    memory.write_u8(0x2004, 0x55);
    memory.read_u8(0x4016);
    assert_eq!(ppu.step(&mut memory), Ok(0));
    assert_eq!(ppu.ppu_ctrl, 0x80);
    assert_eq!(ppu.oam_address, 0x11);
    assert_eq!(ppu.oam_data, 0x55);
    assert_eq!(memory.ppu_register_status(0), PPURegisterStatus::Untouched);
    assert_eq!(memory.ppu_register_status(4), PPURegisterStatus::Untouched);
    assert_eq!(memory.misc_register_status(0x16), MiscRegisterStatus::Untouched);
}

#[test]
fn ppu_two_write_registers_wait_for_second_write() {
    let mut memory = Memory::new();
    let mut ppu = PPU::new(options());
    memory.write_u8(0x2005, 0x12);
    assert_eq!(ppu.step(&mut memory), Ok(0));
    assert_eq!(memory.ppu_register_status(5), PPURegisterStatus::Written);
    assert_eq!(ppu.ppu_scroll, 0);
    memory.write_u8(0x2005, 0x34);
    assert_eq!(memory.ppu_register_status(5), PPURegisterStatus::WrittenTwice);
    assert_eq!(ppu.step(&mut memory), Ok(0));
    assert_eq!(ppu.ppu_scroll, 0x34);
    assert_eq!(memory.ppu_register_status(5), PPURegisterStatus::Untouched);
    memory.write_u8(0x2006, 0x21);
    memory.write_u8(0x3FFE, 0x08);
    assert_eq!(ppu.step(&mut memory), Ok(0));
    assert_eq!(ppu.ppu_addr, 0x08);
}

#[test]
fn ppu_step_reports_dma_once() {
    let mut memory = Memory::new();
    let mut ppu = PPU::new(options());
    memory.write_u8(0x4014, 0x02);
    assert_eq!(ppu.step(&mut memory), Err(PpuError::DmaUnimplemented(0x02)));
    assert_eq!(memory.misc_register_status(0x14), MiscRegisterStatus::Untouched);
    assert_eq!(ppu.step(&mut memory), Ok(0));
}

#[test]
fn ppu_memory_mirrors() {
    let mut ppu = PPU::new(options());
    ppu.write_u8(0x3F00, 0x0F);
    assert_eq!(ppu.read_u8(0x3F20), 0x0F);
    assert_eq!(ppu.read_u8(0x7F00), 0x0F);
    ppu.write_u8(0x2005, 0x21);
    assert_eq!(ppu.read_u8(0x3005), 0x21);
    assert!(ppu.ppu_status_vblank());
    assert!(!ppu.ppu_status_sprite_0_hit());
    assert!(ppu.ppu_status_sprite_overflow());
    assert_eq!(ppu.ppu_ctrl_base_nametable_address(), 0x2000);
    assert_eq!(ppu.ppu_ctrl_vram_address_increment(), 1);
}

fn console(program: &[u8]) -> NES {
    let mut prg = vec![0u8; 0x4000];
    prg[..program.len()].copy_from_slice(program);
    prg[0x3FFC] = 0x00;
    prg[0x3FFD] = 0x80;
    let mut rom = vec![0x4E, 0x45, 0x53, 0x1A, 1, 0, 0, 0, 0, 0, 0, 0, 0, 0, 0, 0];
    rom.extend_from_slice(&prg);
    let header = INESHeader::new(&rom).unwrap();
    NES::new(rom, header, options())
}

#[test]
fn console_step_runs_cpu_then_ppu() {
    let mut nes = console(&[0xA9, 0x07, 0x8D, 0x00, 0x40, 0x8D, 0x14, 0x40]);
    assert_eq!(nes.step(), Ok(2));
    assert_eq!(nes.cpu.a, 0x07);
    assert_eq!(nes.ppu.ticks, 6);
    assert_eq!(nes.step(), Ok(4));
    assert_eq!(nes.ppu.ticks, 18);
    assert_eq!(nes.memory.misc_register_status(0), MiscRegisterStatus::Untouched);
    assert_eq!(nes.step(), Err(NESError::Ppu(PpuError::DmaUnimplemented(0x07))));
    assert_eq!(nes.ppu.ticks, 19);
}

#[test]
fn console_step_reports_unknown_opcode() {
    let mut nes = console(&[0xFF]);
    assert!(matches!(nes.step(), Err(NESError::Cpu(_))));
}

#[test]
fn rom_without_prg() {
    let rom = vec![0x4E, 0x45, 0x53, 0x1A, 0, 0, 0, 0, 0, 0, 0, 0, 0, 0, 0, 0];
    let header = INESHeader::new(&rom).unwrap();
    assert_eq!(required_rom_length(&header), 16);
    let nes = NES::new(rom, header, options());
    assert_eq!(nes.cpu.pc, 0);
    let rom = vec![0x4E, 0x45, 0x53, 0x1A, 2, 0, 0x04, 0, 0, 0, 0, 0, 0, 0, 0, 0];
    assert_eq!(required_rom_length(&INESHeader::new(&rom).unwrap()), 16 + 512 + 0x8000);
}
