use vstd::prelude::*;

use crate::cpu::{step_spec, CpuError, Registers, CPU};
use crate::ines::INESHeader;
use crate::instruction::{fetch, lemma_cycles_positive};
use crate::memory::{
    initial_memory, lemma_dump_reads_back, word, Memory, MemoryView, PRG_ROM_1_START,
    PRG_ROM_2_START, PRG_ROM_SIZE, TRAINER_SIZE, TRAINER_START,
};
use crate::ppu::{dma_fault, lemma_run_consumes, lemma_run_ticks, ppu_run, PpuError, PPU};

verus! {

/// Settings given on the command line that change how the emulator runs.
#[derive(Clone, Debug)]
pub struct NESRuntimeOptions {
    pub program_counter: Option<u16>,
    pub cpu_log: Option<String>,
    pub verbose: bool,
    pub debugging: bool,
}

/// Why the console stopped.
#[derive(Clone, Copy, Debug, PartialEq, Eq, Structural)]
pub enum NESError {
    Cpu(CpuError),
    Ppu(PpuError),
}

/// Offset of the PRG data in an iNES file: after the header and the
/// trainer, if any.
pub open spec fn prg_offset(h: INESHeader) -> int {
    16 + if h.spec_has_trainer() {
        512int
    } else {
        0int
    }
}

/// Length a ROM needs for the loader: no PRG bank when the header says
/// none, two when it says two, one otherwise.
pub open spec fn required_rom_len(h: INESHeader) -> int {
    prg_offset(h) + if h.prg_rom_size == 0 {
        0int
    } else if h.prg_rom_size == 2 {
        0x8000int
    } else {
        0x4000int
    }
}

/// Length a ROM needs for `NES::new` to load it.
pub fn required_rom_length(header: &INESHeader) -> (r: usize)
    ensures
        r == required_rom_len(*header),
{
    let trainer: usize = if header.has_trainer() {
        TRAINER_SIZE
    } else {
        0
    };
    let prg: usize = if header.prg_rom_size == 0 {
        0
    } else if header.prg_rom_size == 2 {
        2 * PRG_ROM_SIZE
    } else {
        PRG_ROM_SIZE
    };
    0x10 + trainer + prg
}

/// The bus after loading a ROM: the trainer at `$7000`, the first PRG bank
/// at `$8000`, and at `$C000` the second bank or, with a single bank, the
/// first one again. A ROM without PRG leaves `$8000-$FFFF` zeroed.
pub open spec fn loaded_memory(rom: Seq<u8>, h: INESHeader) -> MemoryView {
    let m0 = if h.spec_has_trainer() {
        initial_memory().dump(0x7000, rom.subrange(16, 528))
    } else {
        initial_memory()
    };
    let off = prg_offset(h);
    let bank1 = rom.subrange(off, off + 0x4000);
    let bank2 = if h.prg_rom_size == 2 {
        rom.subrange(off + 0x4000, off + 0x8000)
    } else {
        bank1
    };
    if h.prg_rom_size == 0 {
        m0
    } else {
        m0.dump(0x8000, bank1).dump(0xC000, bank2)
    }
}

/// The reset vector: the little-endian word at `$FFFC`.
pub open spec fn reset_vector(m: MemoryView) -> u16 {
    word(m.peek(0xFFFC), m.peek(0xFFFD))
}

/// After a load the first PRG bank reads at `$8000-$BFFF`, and the second
/// bank, or with a single bank the first one again, at `$C000-$FFFF`.
pub proof fn lemma_loaded_prg(rom: Seq<u8>, h: INESHeader, k: int)
    requires
        rom.len() >= required_rom_len(h),
        h.prg_rom_size != 0,
        0 <= k < 0x4000,
    ensures
        loaded_memory(rom, h).raw(0x8000 + k) == rom[prg_offset(h) + k],
        loaded_memory(rom, h).raw(0xC000 + k) == rom[prg_offset(h) + k + if h.prg_rom_size == 2 {
            0x4000int
        } else {
            0int
        }],
{
    let m0 = if h.spec_has_trainer() {
        initial_memory().dump(0x7000, rom.subrange(16, 528))
    } else {
        initial_memory()
    };
    assert(initial_memory().wf());
    if h.spec_has_trainer() {
        lemma_dump_reads_back(initial_memory(), 0x7000, rom.subrange(16, 528), 0x8000);
    }
    let off = prg_offset(h);
    let bank1 = rom.subrange(off, off + 0x4000);
    let bank2 = if h.prg_rom_size == 2 {
        rom.subrange(off + 0x4000, off + 0x8000)
    } else {
        bank1
    };
    let m1 = m0.dump(0x8000, bank1);
    lemma_dump_reads_back(m0, 0x8000, bank1, 0x8000 + k);
    lemma_dump_reads_back(m0, 0x8000, bank1, 0xC000 + k);
    lemma_dump_reads_back(m1, 0xC000, bank2, 0x8000 + k);
    lemma_dump_reads_back(m1, 0xC000, bank2, 0xC000 + k);
}

/// PPU steps taken when `ticks` are asked for on the bus `m`: one only, when
/// a DMA the PPU cannot serve is pending.
pub open spec fn ppu_ticks_taken(m: MemoryView, ticks: nat) -> nat {
    if ticks > 0 && dma_fault(m).is_some() {
        1
    } else {
        ticks
    }
}

/// The console: header, CPU, PPU and the bus that joins them.
pub struct NES {
    pub header: INESHeader,
    pub runtime_options: NESRuntimeOptions,
    pub cpu: CPU,
    pub ppu: PPU,
    pub memory: Memory,
}

impl NES {
    /// Loads a ROM with mapper 0 and resets the CPU: PC is the override from
    /// the options, or else the reset vector.
    pub fn new(rom: Vec<u8>, header: INESHeader, runtime_options: NESRuntimeOptions) -> (r: NES)
        requires
            header.spec_mapper_number() == 0,
            rom@.len() >= required_rom_len(header),
        ensures
            r.memory@ == loaded_memory(rom@, header),
            r.memory.wf(),
            r.ppu.wf(),
            r.header == header,
            r.cpu.regs() == (Registers {
                pc: match runtime_options.program_counter {
                    Some(pc) => pc,
                    None => reset_vector(loaded_memory(rom@, header)),
                },
                sp: 0xFD,
                a: 0,
                x: 0,
                y: 0,
                p: 0x24,
            }),
            r.cpu.cycles == 0,
            r.cpu.ppu_dots == 0,
    {
        let mut cursor: usize = 0x10;
        let mut memory = Memory::new();
        if header.has_trainer() {
            memory.memdump(TRAINER_START, vstd::slice::slice_subrange(rom.as_slice(), 0x10, 0x210));
            cursor = cursor + TRAINER_SIZE;
        }
        if header.prg_rom_size != 0 {
            let prg_rom_1_addr = cursor;
            let bank1 = vstd::slice::slice_subrange(
                rom.as_slice(),
                prg_rom_1_addr,
                prg_rom_1_addr + PRG_ROM_SIZE,
            );
            memory.memdump(PRG_ROM_1_START, bank1);
            if header.prg_rom_size == 2 {
                let prg_rom_2_addr = cursor + PRG_ROM_SIZE;
                let bank2 = vstd::slice::slice_subrange(
                    rom.as_slice(),
                    prg_rom_2_addr,
                    prg_rom_2_addr + PRG_ROM_SIZE,
                );
                memory.memdump(PRG_ROM_2_START, bank2);
            } else {
                memory.memdump(PRG_ROM_2_START, bank1);
            }
        }
        let ghost loaded = memory@;
        let pc = match runtime_options.program_counter {
            Some(pc) => pc,
            None => memory.read_u16(0xFFFC),
        };
        assert(memory@ == loaded) by {
            assert(memory@ =~= loaded);
        }
        let cpu = CPU::new(runtime_options.clone(), pc);
        let ppu = PPU::new(runtime_options.clone());
        NES { header: header, runtime_options: runtime_options, cpu: cpu, ppu: ppu, memory: memory }
    }

    /// Gives the PPU `ticks` steps; a DMA it cannot serve stops it after
    /// the first.
    fn run_ppu(&mut self, ticks: u32) -> (r: Result<(), PpuError>)
        requires
            old(self).memory.wf(),
        ensures
            final(self).memory.wf(),
            final(self).cpu == old(self).cpu,
            (final(self).ppu, final(self).memory@) == ppu_run(
                old(self).ppu,
                old(self).memory@,
                ppu_ticks_taken(old(self).memory@, ticks as nat),
            ),
            r == (if ticks > 0 {
                match dma_fault(old(self).memory@) {
                    Some(e) => Err::<(), PpuError>(e),
                    None => Ok::<(), PpuError>(()),
                }
            } else {
                Ok::<(), PpuError>(())
            }),
    {
        let ghost m0 = self.memory@;
        let ghost p0 = self.ppu;
        let mut done: u32 = 0;
        while done < ticks
            invariant
                self.memory.wf(),
                self.cpu == old(self).cpu,
                m0 == old(self).memory@,
                p0 == old(self).ppu,
                done <= ticks,
                (self.ppu, self.memory@) == ppu_run(p0, m0, done as nat),
                done > 0 ==> dma_fault(m0).is_none(),
            decreases ticks - done,
        {
            proof {
                if done > 0 {
                    lemma_run_consumes(p0, m0, done as nat);
                }
            }
            match self.ppu.step(&mut self.memory) {
                Err(e) => {
                    return Err(e);
                },
                Ok(_) => {},
            }
            done = done + 1;
        }
        Ok(())
    }

    /// Runs one CPU instruction, then gives the PPU three steps per CPU
    /// cycle (one, if the instruction started a DMA the PPU cannot serve).
    /// Returns the cycles of the instruction.
    pub fn step(&mut self) -> (r: Result<u16, NESError>)
        requires
            old(self).memory.wf(),
            old(self).cpu.cycles <= 0xFF00,
        ensures
            final(self).memory.wf(),
            match step_spec(old(self).cpu.regs(), old(self).memory@) {
                None => {
                    &&& r is Err
                    &&& final(self).cpu.regs() == old(self).cpu.regs()
                    &&& final(self).ppu == old(self).ppu
                },
                Some((regs, m, c)) => {
                    let n = (old(self).cpu.cycles + c) as u16;
                    let ticks = ppu_ticks_taken(m, 3 * n as nat);
                    &&& final(self).cpu.regs() == regs
                    &&& (final(self).ppu, final(self).memory@) == ppu_run(old(self).ppu, m, ticks)
                    &&& final(self).ppu.ticks == (old(self).ppu.ticks + ticks) % 0x1_0000_0000_0000_0000
                    &&& dma_fault(m).is_none() ==> ticks == 3 * n
                    &&& r == (match dma_fault(m) {
                        Some(e) => Err::<u16, NESError>(NESError::Ppu(e)),
                        None => Ok::<u16, NESError>(n),
                    })
                },
            },
    {
        proof {
            reveal(step_spec);
        }
        let ghost p0 = self.ppu;
        let cycles = match self.cpu.execute(&mut self.memory) {
            Err(e) => {
                return Err(NESError::Cpu(e));
            },
            Ok(c) => c,
        };
        let ghost m = self.memory@;
        proof {
            let (fetched, m1) = fetch(old(self).cpu.pc, old(self).memory@);
            lemma_cycles_positive(fetched.unwrap(), old(self).cpu.regs(), m1);
            lemma_run_ticks(p0, m, ppu_ticks_taken(m, 3 * cycles as nat));
        }
        match self.run_ppu(cycles as u32 * 3) {
            Err(e) => {
                return Err(NESError::Ppu(e));
            },
            Ok(_) => {},
        }
        Ok(cycles)
    }
}

} // verus!
