use nes_rs::cpu::CPU;
use nes_rs::debugger::{command_from_name, dump_request_from, Command, Debugger};
use nes_rs::ines::INESHeader;
use nes_rs::instruction::Instruction;
use nes_rs::memory::Memory;
use nes_rs::nes::{NESRuntimeOptions, NES};
use nes_rs::parser::{hex_to_u16, input_to_arguments, parse_u16};
use nes_rs::trace::{CPUFrame, FrameError};

fn options(pc: Option<u16>) -> NESRuntimeOptions {
    NESRuntimeOptions {
        program_counter: pc,
        cpu_log: None,
        verbose: false,
        debugging: false,
    }
}

fn console(program: &[u8]) -> NES {
    let mut prg = vec![0u8; 0x4000];
    prg[..program.len()].copy_from_slice(program);
    let mut rom = vec![0x4E, 0x45, 0x53, 0x1A, 1, 0, 0, 0, 0, 0, 0, 0, 0, 0, 0, 0];
    rom.extend_from_slice(&prg);
    let header = INESHeader::new(&rom).unwrap();
    NES::new(rom, header, options(Some(0xC000)))
}

const FIRST_LINE: &str =
    "C000  4C F5 C5  JMP $C5F5                       A:00 X:00 Y:00 P:24 SP:FD CYC:  0";

#[test]
fn trace_line_matches_nintendulator() {
    let mut nes = console(&[0x4C, 0xF5, 0xC5]);
    let line = nes.cpu.trace(&mut nes.memory).unwrap();
    assert_eq!(line, FIRST_LINE);
}

#[test]
fn trace_line_with_memory_operand() {
    let mut memory = Memory::new();
    memory.memdump(0xC000, &[0x86, 0x00]);
    memory.write_u8(0x00, 0xAB);
    let mut cpu = CPU::new(options(None), 0xC000);
    cpu.x = 0x01;
    cpu.ppu_dots = 21;
    let line = cpu.trace(&mut memory).unwrap();
    assert_eq!(
        line,
        "C000  86 00     STX $00 = AB                    A:00 X:01 Y:00 P:24 SP:FD CYC: 21"
    );
}

#[test]
fn trace_of_unknown_opcode_is_none() {
    let mut memory = Memory::new();
    memory.memdump(0xC000, &[0x02]);
    let cpu = CPU::new(options(None), 0xC000);
    assert!(cpu.trace(&mut memory).is_none());
}

#[test]
fn disassembly_forms() {
    let mut memory = Memory::new();
    memory.write_u8(0x40, 0x00);
    memory.write_u8(0x41, 0x06);
    memory.write_u8(0x0600, 0x5A);
    memory.write_u8(0x0633, 0x77);
    let mut cpu = CPU::new(options(None), 0x8000);
    cpu.x = 0x01;
    cpu.y = 0x33;
    let cases: [(Instruction, &str); 9] = [
        (Instruction(0x0A, 0, 0), "ASL A"),
        (Instruction(0xEA, 0, 0), "NOP"),
        (Instruction(0xA9, 0x10, 0), "LDA #$10"),
        (Instruction(0x81, 0x3F, 0), "STA ($3F,X) @ 40 = 0600 = 5A"),
        (Instruction(0xB1, 0x40, 0), "LDA ($40),Y = 0600 @ 0633 = 77"),
        (Instruction(0xBD, 0xFF, 0x05), "LDA $05FF,X @ 0600 = 5A"),
        (Instruction(0x6C, 0x40, 0x00), "JMP ($0040) = 0600"),
        (Instruction(0x20, 0x00, 0x90), "JSR $9000"),
        (Instruction(0xD0, 0xFE, 0), "BNE $8000"),
    ];
    for (instr, text) in cases.iter() {
        assert_eq!(instr.disassemble(&cpu, &mut memory), *text);
    }
}

#[test]
fn frame_parsing() {
    let frame = CPUFrame::parse(FIRST_LINE).unwrap();
    assert_eq!(frame.instruction, Instruction(0x4C, 0xF5, 0xC5));
    assert_eq!(frame.disassembly, "JMP $C5F5                     ");
    assert_eq!(frame.pc, 0xC000);
    assert_eq!((frame.a, frame.x, frame.y, frame.p, frame.sp), (0, 0, 0, 0x24, 0xFD));
    assert_eq!(frame.cycles, 0);
    let short = CPUFrame::parse("C000  4C F5 C5");
    assert_eq!(short.err(), Some(FrameError::TooShort));
    let bad = FIRST_LINE.replace("A:00", "A:G0");
    assert_eq!(CPUFrame::parse(&bad).err(), Some(FrameError::InvalidNumber));
    let line = "C5F5  A2 00     LDX #$00                        A:00 X:00 Y:00 P:24 SP:FD CYC:  9";
    let frame = CPUFrame::parse(line).unwrap();
    assert_eq!(frame.instruction, Instruction(0xA2, 0x00, 0));
    assert_eq!(frame.cycles, 9);
    assert!(CPUFrame::parse(line) == CPUFrame::parse(line));
}

#[test]
fn argument_splitting() {
    let args = input_to_arguments("dump -p 2 c000".to_string()).unwrap();
    assert_eq!(args, vec!["dump", "-p", "2", "c000"]);
    let args = input_to_arguments(" a\t\tb ".to_string()).unwrap();
    assert_eq!(args, vec!["", "a", "b"]);
    assert!(input_to_arguments(String::new()).unwrap().is_empty());
}

#[test]
fn number_parsing() {
    assert_eq!(hex_to_u16("0xC000"), Some(0xC000));
    assert_eq!(hex_to_u16("c000"), Some(0xC000));
    assert_eq!(hex_to_u16("10000"), None);
    assert_eq!(hex_to_u16("zz"), None);
    assert_eq!(hex_to_u16("0x"), None);
    assert_eq!(parse_u16("65535", 10), Some(65535));
    assert_eq!(parse_u16("65536", 10), None);
    assert_eq!(parse_u16("1a", 10), None);
    assert_eq!(parse_u16("+12", 10), Some(12));
    assert_eq!(parse_u16("+", 10), None);
    assert_eq!(hex_to_u16("0x+ff"), Some(0xFF));
}

#[test]
fn command_interpretation() {
    let debugger = Debugger::new();
    let c = debugger.interpret("HELP".to_string()).unwrap();
    assert_eq!(c.command, Command::Help);
    assert_eq!(debugger.interpret("s".to_string()).unwrap().command, Command::Stop);
    assert_eq!(debugger.interpret("Continue".to_string()).unwrap().command, Command::Continue);
    let c = debugger.interpret("od -p 3".to_string()).unwrap();
    assert_eq!(c.command, Command::ObjDump);
    assert_eq!(c.args, vec!["od", "-p", "3"]);
    assert!(debugger.interpret("jump".to_string()).is_none());
    assert!(debugger.interpret(String::new()).is_none());
}

#[test]
fn stop_continue_exit() {
    let mut nes = console(&[]);
    let mut debugger = Debugger::new();
    assert!(debugger.stepping());
    let out = debugger.handle_input("stop".to_string(), &mut nes);
    assert_eq!(out.stdout, "Stopping execution now...\n");
    assert!(!debugger.stepping());
    let out = debugger.handle_input("s".to_string(), &mut nes);
    assert_eq!(out.stdout, "Execution is already stopped.\n");
    let out = debugger.handle_input("c".to_string(), &mut nes);
    assert_eq!(out.stdout, "Starting execution now...\n");
    assert!(debugger.stepping());
    let out = debugger.handle_input("bogus".to_string(), &mut nes);
    assert_eq!(out.stderr, "nes-rs: unknown command specified\n");
    let out = debugger.handle_input("help".to_string(), &mut nes);
    assert!(out.stderr.contains("Supported commands"));
    assert!(!debugger.shutdown());
    debugger.handle_input("exit".to_string(), &mut nes);
    assert!(debugger.shutdown());
}

#[test]
fn memory_dump() {
    let mut nes = console(&[]);
    nes.memory.memdump(0x0200, b"Hi!\x00\x01\x7f~ ABCDEFGH");
    let mut debugger = Debugger::new();
    let out = debugger.handle_input("dump -p 1 0x0200".to_string(), &mut nes);
    assert_eq!(
        out.stdout,
        "0200  48 69 21 00 01 7f 7e 20  41 42 43 44 45 46 47 48  Hi!...~ ABCDEFGH\n"
    );
    let out = debugger.handle_input("d --peek 2 ffff".to_string(), &mut nes);
    let lines: Vec<&str> = out.stdout.lines().collect();
    assert_eq!(lines.len(), 2);
    assert!(lines[0].starts_with("ffff  00 00 "));
    assert!(lines[1].starts_with("000f  "));
    let out = debugger.handle_input("dump".to_string(), &mut nes);
    assert_eq!(out.stdout.lines().count(), 10);
    assert!(out.stdout.starts_with("c000  "));
}

#[test]
fn memory_dump_errors() {
    let mut nes = console(&[]);
    let mut debugger = Debugger::new();
    let out = debugger.handle_input("dump -x".to_string(), &mut nes);
    assert!(out.stderr.starts_with("dump: "));
    assert!(out.stderr.contains("Usage: dump [OPTION]... [ADDRESS]"));
    assert!(out.stderr.contains("--peek"));
    assert!(out.stdout.is_empty());
    let out = debugger.handle_input("dump -p +1 0".to_string(), &mut nes);
    assert_eq!(out.stdout.lines().count(), 1);
    let out = debugger.handle_input("dump -p lots".to_string(), &mut nes);
    assert!(out.stderr.starts_with("dump: invalid peek count: lots"));
    let out = debugger.handle_input("dump nowhere".to_string(), &mut nes);
    assert_eq!(out.stderr, "dump: cannot parse address: nowhere\n");
    let out = debugger.handle_input("objdump c000".to_string(), &mut nes);
    assert_eq!(out.stdout, "Unimplemented... for now.\n");
}

#[test]
fn debugger_step_gates_the_cpu() {
    let mut nes = console(&[0xEA, 0xEA]);
    let mut debugger = Debugger::new();
    let turn = debugger.step(None, &mut nes);
    assert!(turn.output.is_none());
    assert_eq!(turn.step, Some(Ok(2)));
    assert_eq!(nes.cpu.pc, 0xC001);
    let turn = debugger.step(Some("stop".to_string()), &mut nes);
    assert!(turn.output.is_some());
    assert!(turn.step.is_none());
    assert_eq!(nes.cpu.pc, 0xC001);
    let turn = debugger.step(Some("exit".to_string()), &mut nes);
    assert!(turn.shutdown);
}

#[test]
fn command_names_and_dump_requests() {
    assert_eq!(command_from_name("od"), Some(Command::ObjDump));
    assert_eq!(command_from_name("HELP"), None);
    let parsed = Ok((Some("2".to_string()), vec!["0x10".to_string()]));
    assert_eq!(dump_request_from(parsed, 0xC000, "Usage: dump"), Ok((0x10, 2)));
    let parsed = Ok((None, vec![]));
    assert_eq!(dump_request_from(parsed, 0xC000, "Usage: dump"), Ok((0xC000, 10)));
    let parsed: Result<(Option<String>, Vec<String>), String> = Err("bad".to_string());
    let e = dump_request_from(parsed, 0, "Usage: dump").unwrap_err();
    assert!(e.starts_with("dump: bad\nUsage: dump"));
}
