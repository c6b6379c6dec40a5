use nes_rs::cpu::CPU;
use nes_rs::memory::Memory;
use nes_rs::nes::NESRuntimeOptions;

fn machine(pc: u16, program: &[u8]) -> (CPU, Memory) {
    let options = NESRuntimeOptions {
        program_counter: None,
        cpu_log: None,
        verbose: false,
        debugging: false,
    };
    let mut memory = Memory::new();
    memory.memdump(pc as usize, program);
    (CPU::new(options, pc), memory)
}

fn run(program: &[u8], setup: impl Fn(&mut CPU, &mut Memory)) -> (CPU, Memory, u16) {
    let (mut cpu, mut memory) = machine(0x8000, program);
    setup(&mut cpu, &mut memory);
    let cycles = cpu.execute(&mut memory).unwrap();
    (cpu, memory, cycles)
}

#[test]
fn zero_and_negative_follow_result() {
    for v in 0..=255u8 {
        let (cpu, _, _) = run(&[0xA2, v], |_, _| {});
        assert_eq!(cpu.x, v);
        assert_eq!(cpu.zero_flag_set(), v == 0);
        assert_eq!(cpu.negative_flag_set(), v & 0x80 != 0);
        let (cpu, _, _) = run(&[0xE8], |c, _| c.x = v);
        let r = v.wrapping_add(1);
        assert_eq!(cpu.x, r);
        assert_eq!(cpu.zero_flag_set(), r == 0);
        assert_eq!(cpu.negative_flag_set(), r & 0x80 != 0);
    }
}

#[test]
fn adc_carry_and_overflow() {
    let (cpu, _, _) = run(&[0x69, 0x50], |c, _| {
        c.a = 0x50;
        c.unset_carry_flag();
    });
    assert_eq!(cpu.a, 0xA0);
    assert!(cpu.overflow_flag_set());
    assert!(!cpu.carry_flag_set());
    assert!(cpu.negative_flag_set());

    let (cpu, _, _) = run(&[0x69, 0x10], |c, _| {
        c.a = 0x50;
        c.unset_carry_flag();
    });
    assert_eq!(cpu.a, 0x60);
    assert!(!cpu.overflow_flag_set());

    let (cpu, _, _) = run(&[0x69, 0x01], |c, _| {
        c.a = 0xFF;
        c.unset_carry_flag();
    });
    assert_eq!(cpu.a, 0x00);
    assert!(cpu.carry_flag_set());
    assert!(cpu.zero_flag_set());
    assert!(!cpu.overflow_flag_set());

    let (cpu, _, _) = run(&[0x69, 0x80], |c, _| {
        c.a = 0x80;
        c.unset_carry_flag();
    });
    assert_eq!(cpu.a, 0x00);
    assert!(cpu.overflow_flag_set());
    assert!(cpu.carry_flag_set());
}

#[test]
fn adc_with_carry_in_and_operand_ff() {
    let (cpu, _, _) = run(&[0x69, 0xFF], |c, _| {
        c.a = 0x10;
        c.set_carry_flag();
    });
    assert_eq!(cpu.a, 0x10);
    assert!(cpu.carry_flag_set());
}

#[test]
fn sbc_borrow() {
    let (cpu, _, _) = run(&[0xE9, 0x10], |c, _| {
        c.a = 0x50;
        c.set_carry_flag();
    });
    assert_eq!(cpu.a, 0x40);
    assert!(cpu.carry_flag_set());

    let (cpu, _, _) = run(&[0xE9, 0x10], |c, _| {
        c.a = 0x50;
        c.unset_carry_flag();
    });
    assert_eq!(cpu.a, 0x3F);
    assert!(cpu.carry_flag_set());

    let (cpu, _, _) = run(&[0xE9, 0x01], |c, _| {
        c.a = 0x00;
        c.set_carry_flag();
    });
    assert_eq!(cpu.a, 0xFF);
    assert!(!cpu.carry_flag_set());
    assert!(cpu.negative_flag_set());

    let (cpu, _, _) = run(&[0xE9, 0xFF], |c, _| {
        c.a = 0x00;
        c.unset_carry_flag();
    });
    assert_eq!(cpu.a, 0x00);
    assert!(!cpu.carry_flag_set());

    let (cpu, _, _) = run(&[0xE9, 0x01], |c, _| {
        c.a = 0x80;
        c.set_carry_flag();
    });
    assert_eq!(cpu.a, 0x7F);
    assert!(cpu.overflow_flag_set());
}

#[test]
fn bit_copies_bits_six_and_seven() {
    for a in [0x00u8, 0xFF, 0x0F] {
        let (cpu, _, _) = run(&[0x24, 0x10], |c, m| {
            c.a = a;
            c.p = 0x24;
            m.write_u8(0x10, 0xC0);
        });
        assert!(cpu.negative_flag_set());
        assert!(cpu.overflow_flag_set());
        assert_eq!(cpu.zero_flag_set(), a & 0xC0 == 0);
        assert_eq!(cpu.a, a);
    }
    let (cpu, _, cycles) = run(&[0x2C, 0x10, 0x00], |c, m| {
        c.a = 0xFF;
        c.p = 0xE4;
        m.write_u8(0x10, 0x01);
    });
    assert!(!cpu.negative_flag_set());
    assert!(!cpu.overflow_flag_set());
    assert!(!cpu.zero_flag_set());
    assert_eq!(cycles, 4);
}

#[test]
fn compare_sets_carry_zero_negative() {
    let (cpu, _, _) = run(&[0xC9, 0x10], |c, _| c.a = 0x10);
    assert!(cpu.carry_flag_set() && cpu.zero_flag_set() && !cpu.negative_flag_set());
    let (cpu, _, _) = run(&[0xC9, 0x20], |c, _| c.a = 0x10);
    assert!(!cpu.carry_flag_set() && !cpu.zero_flag_set() && cpu.negative_flag_set());
    let (cpu, _, _) = run(&[0xE0, 0x01], |c, _| c.x = 0x02);
    assert!(cpu.carry_flag_set() && !cpu.zero_flag_set());
    let (cpu, _, _) = run(&[0xC0, 0x03], |c, _| c.y = 0x02);
    assert!(!cpu.carry_flag_set());
}

#[test]
fn shifts_and_rotates() {
    let (cpu, _, c) = run(&[0x0A], |c, _| c.a = 0x81);
    assert_eq!((cpu.a, cpu.carry_flag_set(), c), (0x02, true, 2));
    let (cpu, _, _) = run(&[0x4A], |c, _| c.a = 0x01);
    assert_eq!((cpu.a, cpu.carry_flag_set(), cpu.zero_flag_set()), (0x00, true, true));
    let (cpu, _, _) = run(&[0x2A], |c, _| {
        c.a = 0x80;
        c.set_carry_flag();
    });
    assert_eq!((cpu.a, cpu.carry_flag_set()), (0x01, true));
    let (cpu, _, _) = run(&[0x6A], |c, _| {
        c.a = 0x01;
        c.set_carry_flag();
    });
    assert_eq!((cpu.a, cpu.carry_flag_set(), cpu.negative_flag_set()), (0x80, true, true));
    let (_, mut m, c) = run(&[0x06, 0x20], |_, m| m.write_u8(0x20, 0x40));
    assert_eq!((m.read_u8(0x20), c), (0x80, 5));
    let (_, mut m, c) = run(&[0xFE, 0x00, 0x02], |cpu, m| {
        cpu.x = 0x05;
        m.write_u8(0x205, 0xFF);
    });
    assert_eq!((m.read_u8(0x205), c), (0x00, 7));
}

#[test]
fn page_cross_penalty_for_indexed_reads() {
    let (cpu, _, in_page) = run(&[0xBD, 0x00, 0x02], |c, m| {
        c.x = 0x10;
        m.write_u8(0x210, 0x55);
    });
    assert_eq!(cpu.a, 0x55);
    let (cpu, _, crossing) = run(&[0xBD, 0xF8, 0x02], |c, m| {
        c.x = 0x10;
        m.write_u8(0x308, 0x66);
    });
    assert_eq!(cpu.a, 0x66);
    assert_eq!((in_page, crossing), (4, 5));

    let (_, _, in_page) = run(&[0x79, 0x00, 0x02], |c, _| c.y = 0x01);
    let (_, _, crossing) = run(&[0x79, 0xFF, 0x02], |c, _| c.y = 0x01);
    assert_eq!(crossing, in_page + 1);

    let (cpu, _, in_page) = run(&[0xB1, 0x40], |c, m| {
        c.y = 0x01;
        m.write_u8(0x40, 0x00);
        m.write_u8(0x41, 0x03);
        m.write_u8(0x301, 0x77);
    });
    assert_eq!(cpu.a, 0x77);
    let (cpu, _, crossing) = run(&[0xB1, 0x40], |c, m| {
        c.y = 0x02;
        m.write_u8(0x40, 0xFF);
        m.write_u8(0x41, 0x03);
        m.write_u8(0x401, 0x78);
    });
    assert_eq!(cpu.a, 0x78);
    assert_eq!((in_page, crossing), (5, 6));
}

#[test]
fn stores_take_no_page_penalty() {
    let (_, mut m, c) = run(&[0x9D, 0xFF, 0x02], |cpu, _| {
        cpu.x = 0x01;
        cpu.a = 0x99;
    });
    assert_eq!(m.read_u8(0x300), 0x99);
    assert_eq!(c, 5);
}

#[test]
fn indexed_indirect_wraps_in_zero_page() {
    let (cpu, _, c) = run(&[0xA1, 0xFE], |cpu, m| {
        cpu.x = 0x01;
        m.write_u8(0xFF, 0x34);
        m.write_u8(0x00, 0x02);
        m.write_u8(0x0234, 0x5A);
    });
    assert_eq!(cpu.a, 0x5A);
    assert_eq!(c, 6);
}

#[test]
fn zero_page_index_wraps() {
    let (cpu, _, c) = run(&[0xB5, 0xF0], |cpu, m| {
        cpu.x = 0x20;
        m.write_u8(0x10, 0x31);
    });
    assert_eq!(cpu.a, 0x31);
    assert_eq!(c, 4);
}

#[test]
fn php_plp_clears_break_keeps_bit_five() {
    let (mut cpu, mut memory) = machine(0x8000, &[0x08, 0x28]);
    cpu.p = 0xE5;
    assert_eq!(cpu.execute(&mut memory).unwrap(), 3);
    assert_eq!(memory.read_u8(0x01FD), 0xF5);
    assert_eq!(cpu.sp, 0xFC);
    assert_eq!(cpu.execute(&mut memory).unwrap(), 4);
    assert_eq!(cpu.p, 0xE5);
    assert_eq!(cpu.sp, 0xFD);
    assert!(!cpu.break_command_set());
}

#[test]
fn plp_takes_bit_five_from_current_status() {
    let (mut cpu, mut memory) = machine(0x8000, &[0x28]);
    memory.write_u8(0x01FE, 0xFF);
    cpu.p = 0x04;
    cpu.execute(&mut memory).unwrap();
    assert_eq!(cpu.p, 0xCF);
}

#[test]
fn pha_pla() {
    let (mut cpu, mut memory) = machine(0x8000, &[0x48, 0xA9, 0x00, 0x68]);
    cpu.a = 0x80;
    cpu.execute(&mut memory).unwrap();
    cpu.execute(&mut memory).unwrap();
    assert!(cpu.zero_flag_set());
    assert_eq!(cpu.execute(&mut memory).unwrap(), 4);
    assert_eq!(cpu.a, 0x80);
    assert!(cpu.negative_flag_set());
    assert_eq!(cpu.sp, 0xFD);
}

#[test]
fn brk_pushes_and_jumps_to_irq_vector() {
    let (mut cpu, mut memory) = machine(0x8000, &[0x00]);
    memory.write_u8_unrestricted(0xFFFE, 0x00);
    memory.write_u8_unrestricted(0xFFFF, 0x90);
    cpu.p = 0x24;
    assert_eq!(cpu.execute(&mut memory).unwrap(), 7);
    assert_eq!(cpu.pc, 0x9000);
    assert_eq!(cpu.sp, 0xFA);
    assert_eq!(memory.read_u8(0x01FD), 0x80);
    assert_eq!(memory.read_u8(0x01FC), 0x02);
    assert_eq!(memory.read_u8(0x01FB), 0x34);
    assert!(cpu.break_command_set());
}

#[test]
fn rti_restores_status_and_pc() {
    let (mut cpu, mut memory) = machine(0x8000, &[0x40]);
    cpu.sp = 0xFA;
    memory.write_u8(0x01FB, 0xD3);
    memory.write_u8(0x01FC, 0x34);
    memory.write_u8(0x01FD, 0x12);
    cpu.p = 0x20;
    assert_eq!(cpu.execute(&mut memory).unwrap(), 6);
    assert_eq!(cpu.pc, 0x1234);
    assert_eq!(cpu.p, 0xE3);
    assert_eq!(cpu.sp, 0xFD);
}

#[test]
fn transfers_and_flag_instructions() {
    let (cpu, _, _) = run(&[0xBA], |c, _| c.sp = 0x80);
    assert_eq!((cpu.x, cpu.negative_flag_set()), (0x80, true));
    let (cpu, _, _) = run(&[0x9A], |c, _| {
        c.x = 0x00;
        c.p = 0x24;
    });
    assert_eq!((cpu.sp, cpu.p), (0x00, 0x24));
    let (cpu, _, _) = run(&[0xF8], |_, _| {});
    assert!(cpu.decimal_mode_set());
    let (cpu, _, _) = run(&[0x78], |c, _| c.p = 0x20);
    assert!(cpu.interrupt_disable_set());
    let (cpu, _, _) = run(&[0xB8], |c, _| c.p = 0x60);
    assert!(!cpu.overflow_flag_set());
    let (cpu, _, _) = run(&[0x88], |c, _| c.y = 0x00);
    assert_eq!((cpu.y, cpu.negative_flag_set()), (0xFF, true));
}

#[test]
fn stack_pointer_wraps_within_page() {
    let (mut cpu, mut memory) = machine(0x8000, &[0x48, 0x68]);
    cpu.sp = 0x00;
    cpu.a = 0x5C;
    cpu.execute(&mut memory).unwrap();
    assert_eq!(cpu.sp, 0xFF);
    assert_eq!(memory.read_u8(0x0100), 0x5C);
    cpu.a = 0;
    cpu.execute(&mut memory).unwrap();
    assert_eq!((cpu.a, cpu.sp), (0x5C, 0x00));
}
