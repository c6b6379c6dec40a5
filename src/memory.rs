use vstd::prelude::*;

use byteorder::ByteOrder;

use crate::cpu::CPU;

verus! {

// Physical sizes of the memory banks.
pub const RAM_SIZE: usize = 0x800;
pub const PPU_CTRL_REGISTERS_SIZE: usize = 0x8;
pub const MISC_CTRL_REGISTERS_SIZE: usize = 0x20;
pub const EXPANSION_ROM_SIZE: usize = 0x1FE0;
pub const SRAM_SIZE: usize = 0x2000;
pub const PRG_ROM_SIZE: usize = 0x4000;

// Bounds of the regions of the CPU address space.
pub const RAM_START_ADDR: usize = 0x0;
pub const RAM_END_ADDR: usize = 0x7FF;
pub const RAM_MIRROR_START: usize = 0x800;
pub const RAM_MIRROR_END: usize = 0x1FFF;
pub const PPU_CTRL_REGISTERS_START: usize = 0x2000;
pub const PPU_CTRL_REGISTERS_END: usize = 0x2007;
pub const PPU_CTRL_REGISTERS_MIRROR_START: usize = 0x2008;
pub const PPU_CTRL_REGISTERS_MIRROR_END: usize = 0x3FFF;
pub const MISC_CTRL_REGISTERS_START: usize = 0x4000;
pub const MISC_CTRL_REGISTERS_END: usize = 0x401F;
pub const EXPANSION_ROM_START: usize = 0x4020;
pub const EXPANSION_ROM_END: usize = 0x5FFF;
pub const SRAM_START: usize = 0x6000;
pub const SRAM_END: usize = 0x7FFF;
pub const PRG_ROM_1_START: usize = 0x8000;
pub const PRG_ROM_1_END: usize = 0xBFFF;
pub const PRG_ROM_2_START: usize = 0xC000;
pub const PRG_ROM_2_END: usize = 0xFFFF;

// Where a trainer is placed, and its size.
pub const TRAINER_START: usize = 0x7000;
pub const TRAINER_SIZE: usize = 512;

// Register that starts a sprite DMA copy.
pub const DMA_REGISTER: usize = 0x4014;

// First byte of the stack page.
pub const STACK_OFFSET: usize = 0x100;

/// Kind of access made on the bus. `Nop` accesses leave the register touch
/// state alone (used by the disassembler and debugger).
#[derive(Clone, Copy, Debug, PartialEq, Eq, Structural)]
pub enum MemoryOperation {
    Read,
    Write,
    Nop,
}

/// Touch state of a PPU register since the PPU last looked at it.
#[derive(Clone, Copy, Debug, PartialEq, Eq, Structural)]
pub enum PPURegisterStatus {
    Read,
    Written,
    WrittenTwice,
    Untouched,
}

/// Touch state of an APU/IO register since the PPU last looked at it.
#[derive(Clone, Copy, Debug, PartialEq, Eq, Structural)]
pub enum MiscRegisterStatus {
    Read,
    Written,
    Untouched,
}

/// The physical bank an address decodes to.
#[derive(Clone, Copy, Debug, PartialEq, Eq, Structural)]
pub enum Bank {
    Ram,
    PpuRegisters,
    MiscRegisters,
    ExpansionRom,
    Sram,
    PrgRom1,
    PrgRom2,
}

/// Bank and index within it that a virtual address maps to.
pub open spec fn decode(addr: int) -> (Bank, int) {
    if addr <= 0x7FF {
        (Bank::Ram, addr)
    } else if addr <= 0x1FFF {
        (Bank::Ram, addr % 0x800)
    } else if addr <= 0x2007 {
        (Bank::PpuRegisters, addr - 0x2000)
    } else if addr <= 0x3FFF {
        (Bank::PpuRegisters, (addr - 0x2000) % 8)
    } else if addr <= 0x401F {
        (Bank::MiscRegisters, addr - 0x4000)
    } else if addr <= 0x5FFF {
        (Bank::ExpansionRom, addr - 0x4020)
    } else if addr <= 0x7FFF {
        (Bank::Sram, addr - 0x6000)
    } else if addr <= 0xBFFF {
        (Bank::PrgRom1, addr - 0x8000)
    } else {
        (Bank::PrgRom2, addr - 0xC000)
    }
}

/// Whether the CPU may read at an address.
pub open spec fn readable(addr: int) -> bool {
    let (bank, idx) = decode(addr);
    match bank {
        Bank::PpuRegisters => idx == 2 || idx == 4 || idx == 7,
        Bank::MiscRegisters => idx != 0x14,
        _ => true,
    }
}

/// Whether the CPU may write at an address.
pub open spec fn writable(addr: int) -> bool {
    let (bank, idx) = decode(addr);
    match bank {
        Bank::PpuRegisters => idx != 2,
        Bank::ExpansionRom | Bank::PrgRom1 | Bank::PrgRom2 => false,
        _ => true,
    }
}

/// Touch state of a PPU register after an access. A second write turns
/// `Written` into `WrittenTwice`; reads do not erase a write.
pub open spec fn next_ppu_status(s: PPURegisterStatus, op: MemoryOperation) -> PPURegisterStatus {
    if s == PPURegisterStatus::Written && op == MemoryOperation::Write {
        PPURegisterStatus::WrittenTwice
    } else if s != PPURegisterStatus::Written && s != PPURegisterStatus::WrittenTwice {
        match op {
            MemoryOperation::Read => PPURegisterStatus::Read,
            MemoryOperation::Write => PPURegisterStatus::Written,
            MemoryOperation::Nop => s,
        }
    } else {
        s
    }
}

/// Touch state of an APU/IO register after an access.
pub open spec fn next_misc_status(s: MiscRegisterStatus, op: MemoryOperation) -> MiscRegisterStatus {
    match op {
        MemoryOperation::Read => MiscRegisterStatus::Read,
        MemoryOperation::Write => MiscRegisterStatus::Written,
        MemoryOperation::Nop => s,
    }
}

/// Contents of the CPU bus.
#[verifier::ext_equal]
pub struct MemoryView {
    pub ram: Seq<u8>,
    pub ppu_registers: Seq<u8>,
    pub ppu_status: Seq<PPURegisterStatus>,
    pub misc_registers: Seq<u8>,
    pub misc_status: Seq<MiscRegisterStatus>,
    pub expansion_rom: Seq<u8>,
    pub sram: Seq<u8>,
    pub prg_rom_1: Seq<u8>,
    pub prg_rom_2: Seq<u8>,
}

impl MemoryView {
    pub open spec fn wf(self) -> bool {
        &&& self.ram.len() == 0x800
        &&& self.ppu_registers.len() == 8
        &&& self.ppu_status.len() == 8
        &&& self.misc_registers.len() == 0x20
        &&& self.misc_status.len() == 0x20
        &&& self.expansion_rom.len() == 0x1FE0
        &&& self.sram.len() == 0x2000
        &&& self.prg_rom_1.len() == 0x4000
        &&& self.prg_rom_2.len() == 0x4000
    }

    pub open spec fn bank(self, b: Bank) -> Seq<u8> {
        match b {
            Bank::Ram => self.ram,
            Bank::PpuRegisters => self.ppu_registers,
            Bank::MiscRegisters => self.misc_registers,
            Bank::ExpansionRom => self.expansion_rom,
            Bank::Sram => self.sram,
            Bank::PrgRom1 => self.prg_rom_1,
            Bank::PrgRom2 => self.prg_rom_2,
        }
    }

    pub open spec fn with_bank(self, b: Bank, s: Seq<u8>) -> MemoryView {
        match b {
            Bank::Ram => MemoryView { ram: s, ..self },
            Bank::PpuRegisters => MemoryView { ppu_registers: s, ..self },
            Bank::MiscRegisters => MemoryView { misc_registers: s, ..self },
            Bank::ExpansionRom => MemoryView { expansion_rom: s, ..self },
            Bank::Sram => MemoryView { sram: s, ..self },
            Bank::PrgRom1 => MemoryView { prg_rom_1: s, ..self },
            Bank::PrgRom2 => MemoryView { prg_rom_2: s, ..self },
        }
    }

    /// The byte stored behind an address, whatever the permissions.
    pub open spec fn raw(self, addr: int) -> u8 {
        self.bank(decode(addr).0)[decode(addr).1]
    }

    /// The byte a CPU read returns: 0 where the address is not readable.
    pub open spec fn peek(self, addr: int) -> u8 {
        if readable(addr) {
            self.raw(addr)
        } else {
            0
        }
    }

    /// Register touch state after an access at `addr`.
    pub open spec fn touch(self, addr: int, op: MemoryOperation) -> MemoryView {
        let (bank, idx) = decode(addr);
        match bank {
            Bank::PpuRegisters => MemoryView {
                ppu_status: self.ppu_status.update(idx, next_ppu_status(self.ppu_status[idx], op)),
                ..self
            },
            Bank::MiscRegisters => MemoryView {
                misc_status: self.misc_status.update(
                    idx,
                    next_misc_status(self.misc_status[idx], op),
                ),
                ..self
            },
            _ => self,
        }
    }

    /// The byte behind an address replaced, whatever the permissions.
    pub open spec fn set_raw(self, addr: int, v: u8) -> MemoryView {
        let (bank, idx) = decode(addr);
        self.with_bank(bank, self.bank(bank).update(idx, v))
    }

    /// The bus after a CPU write.
    pub open spec fn store(self, addr: int, v: u8) -> MemoryView {
        let t = self.touch(addr, MemoryOperation::Write);
        if writable(addr) {
            t.set_raw(addr, v)
        } else {
            t
        }
    }

    /// The bus after a CPU read.
    pub open spec fn after_read(self, addr: int) -> MemoryView {
        self.touch(addr, MemoryOperation::Read)
    }

    /// The bus after `bytes` were written from `addr` on, whatever the
    /// permissions.
    pub open spec fn dump(self, addr: int, bytes: Seq<u8>) -> MemoryView
        decreases bytes.len(),
    {
        if bytes.len() == 0 {
            self
        } else {
            self.dump(addr, bytes.drop_last()).set_raw(addr + bytes.len() - 1, bytes.last())
        }
    }
}

/// Touch state of a PPU register once the PPU has taken it: untouched, but
/// for a single write to PPUSCROLL or PPUADDR, which waits for its second
/// half.
pub open spec fn consumed_ppu_status(index: int, s: PPURegisterStatus) -> PPURegisterStatus {
    if (index == 5 || index == 6) && s == PPURegisterStatus::Written {
        PPURegisterStatus::Written
    } else {
        PPURegisterStatus::Untouched
    }
}

impl MemoryView {
    /// The bus once the PPU has taken the touch state of every register.
    pub open spec fn consumed(self) -> MemoryView {
        MemoryView {
            ppu_status: Seq::new(8, |i: int| consumed_ppu_status(i, self.ppu_status[i])),
            misc_status: Seq::new(0x20, |i: int| MiscRegisterStatus::Untouched),
            ..self
        }
    }
}

/// Value of two bytes read as a little-endian word.
pub open spec fn word(lsb: u8, msb: u8) -> u16 {
    (lsb + 256 * msb) as u16
}

/// Address of the high byte of a word whose low byte is at `addr`, with the
/// 6502 bug: the high byte never comes from the next page.
pub open spec fn wrapped_msb_addr(addr: int) -> int {
    if addr % 0x100 == 0xFF {
        addr - 0xFF
    } else {
        addr + 1
    }
}

/// The word `read_wrapped` would read, taken whatever the permissions.
pub open spec fn raw_wrapped(m: MemoryView, addr: int) -> u16 {
    word(m.raw(addr), m.raw(wrapped_msb_addr(addr)))
}

/// A CPU read of a word whose high byte follows the page-wrap bug: the word
/// and the bus after both reads.
pub open spec fn read_wrapped(m: MemoryView, addr: int) -> (u16, MemoryView) {
    let lsb = m.peek(addr);
    let m1 = m.after_read(addr);
    let msb = m1.peek(wrapped_msb_addr(addr));
    (word(lsb, msb), m1.after_read(wrapped_msb_addr(addr)))
}

/// Stack pointer after a push.
pub open spec fn sp_dec(sp: u8) -> u8 {
    ((sp + 255) % 256) as u8
}

/// Stack pointer before a pop.
pub open spec fn sp_inc(sp: u8) -> u8 {
    ((sp + 1) % 256) as u8
}

/// Bus and stack pointer after pushing a byte.
pub open spec fn stack_push(m: MemoryView, sp: u8, v: u8) -> (MemoryView, u8) {
    (m.store(0x100 + sp, v), sp_dec(sp))
}

/// Byte popped, bus and stack pointer after popping a byte.
pub open spec fn stack_pop(m: MemoryView, sp: u8) -> (u8, MemoryView, u8) {
    (m.peek(0x100 + sp_inc(sp)), m.after_read(0x100 + sp_inc(sp)), sp_inc(sp))
}

/// Bus and stack pointer after pushing a word, high byte first so that it
/// ends at the higher address.
pub open spec fn stack_push_word(m: MemoryView, sp: u8, v: u16) -> (MemoryView, u8) {
    let (m1, sp1) = stack_push(m, sp, (v / 256) as u8);
    stack_push(m1, sp1, (v % 256) as u8)
}

/// Word popped, bus and stack pointer after popping a word.
pub open spec fn stack_pop_word(m: MemoryView, sp: u8) -> (u16, MemoryView, u8) {
    let (lsb, m1, sp1) = stack_pop(m, sp);
    let (msb, m2, sp2) = stack_pop(m1, sp1);
    (word(lsb, msb), m2, sp2)
}

/// Relies on byteorder's `LittleEndian::read_u16`: the first byte is the low
/// half of the word.
#[verifier::external_body]
fn le_word(lsb: u8, msb: u8) -> (r: u16)
    ensures
        r == word(lsb, msb),
{
    byteorder::LittleEndian::read_u16(&[lsb, msb])
}

/// Relies on byteorder's `LittleEndian::write_u16`: the low byte is written
/// first.
#[verifier::external_body]
fn le_bytes(v: u16) -> (r: (u8, u8))
    ensures
        r.0 == v % 256,
        r.1 == v / 256,
{
    let mut buf = [0u8; 2];
    byteorder::LittleEndian::write_u16(&mut buf, v);
    (buf[0], buf[1])
}

/// Reads a little-endian word from two bytes.
pub fn word_from_bytes(lsb: u8, msb: u8) -> (r: u16)
    ensures
        r == word(lsb, msb),
        r as int == lsb + 256 * msb,
{
    le_word(lsb, msb)
}

/// The CPU-side memory: RAM, the I/O register windows with their touch
/// state, and the cartridge banks.
pub struct Memory {
    ram: Vec<u8>,
    ppu_ctrl_registers: Vec<u8>,
    ppu_ctrl_registers_status: Vec<PPURegisterStatus>,
    misc_ctrl_registers: Vec<u8>,
    misc_ctrl_registers_status: Vec<MiscRegisterStatus>,
    expansion_rom: Vec<u8>,
    sram: Vec<u8>,
    prg_rom_1: Vec<u8>,
    prg_rom_2: Vec<u8>,
}

impl View for Memory {
    type V = MemoryView;

    closed spec fn view(&self) -> MemoryView {
        MemoryView {
            ram: self.ram@,
            ppu_registers: self.ppu_ctrl_registers@,
            ppu_status: self.ppu_ctrl_registers_status@,
            misc_registers: self.misc_ctrl_registers@,
            misc_status: self.misc_ctrl_registers_status@,
            expansion_rom: self.expansion_rom@,
            sram: self.sram@,
            prg_rom_1: self.prg_rom_1@,
            prg_rom_2: self.prg_rom_2@,
        }
    }
}

/// Every bank zeroed and every register untouched.
pub open spec fn initial_memory() -> MemoryView {
    MemoryView {
        ram: Seq::new(0x800, |i: int| 0u8),
        ppu_registers: Seq::new(8, |i: int| 0u8),
        ppu_status: Seq::new(8, |i: int| PPURegisterStatus::Untouched),
        misc_registers: Seq::new(0x20, |i: int| 0u8),
        misc_status: Seq::new(0x20, |i: int| MiscRegisterStatus::Untouched),
        expansion_rom: Seq::new(0x1FE0, |i: int| 0u8),
        sram: Seq::new(0x2000, |i: int| 0u8),
        prg_rom_1: Seq::new(0x4000, |i: int| 0u8),
        prg_rom_2: Seq::new(0x4000, |i: int| 0u8),
    }
}


/// A touch with `Nop` changes nothing.
pub proof fn lemma_touch_nop(m: MemoryView, addr: int)
    requires
        m.wf(),
        0 <= addr <= 0xFFFF,
    ensures
        m.touch(addr, MemoryOperation::Nop) == m,
{
    assert(m.touch(addr, MemoryOperation::Nop) =~= m);
}

/// Pushing a byte and popping it again gives the byte back and restores the
/// stack pointer, for every stack pointer, the page ends included.
pub proof fn lemma_stack_round_trip_u8(m: MemoryView, sp: u8, v: u8)
    requires
        m.wf(),
    ensures
        ({
            let (m1, sp1) = stack_push(m, sp, v);
            let (x, m2, sp2) = stack_pop(m1, sp1);
            x == v && sp2 == sp
        }),
{
    let (m1, sp1) = stack_push(m, sp, v);
    assert(sp_inc(sp1) == sp);
    assert(m1.bank(Bank::Ram)[0x100 + sp] == v);
}

/// Pushing a word and popping a word gives the word back and restores the
/// stack pointer, for every stack pointer, the page ends included.
pub proof fn lemma_stack_round_trip_u16(m: MemoryView, sp: u8, v: u16)
    requires
        m.wf(),
    ensures
        ({
            let (m1, sp1) = stack_push_word(m, sp, v);
            let (x, m2, sp2) = stack_pop_word(m1, sp1);
            x == v && sp2 == sp
        }),
{
    let (ma, spa) = stack_push(m, sp, (v / 256) as u8);
    let (m1, sp1) = stack_push(ma, spa, (v % 256) as u8);
    assert(spa == sp_dec(sp));
    assert(sp_inc(sp1) == spa);
    assert(sp_inc(spa) == sp);
    assert(m1.peek(0x100 + spa) == (v % 256) as u8);
    assert(m1.peek(0x100 + sp) == (v / 256) as u8);
    let (lsb, m2, s2) = stack_pop(m1, sp1);
    assert(m2 == m1);
    let (msb, m3, s3) = stack_pop(m2, s2);
    assert(word(lsb, msb) == v);
}

/// A byte written anywhere in `$0000-$1FFF` reads back at the same RAM
/// offset in each of the four mirrors.
pub proof fn lemma_ram_mirror(m: MemoryView, addr: int, v: u8, k: int)
    requires
        m.wf(),
        0 <= addr < 0x2000,
        0 <= k < 4,
    ensures
        m.store(addr, v).peek(addr % 0x800 + k * 0x800) == v,
{
    let a = addr % 0x800 + k * 0x800;
    assert(decode(a).1 == addr % 0x800) by {
        assert((addr % 0x800 + k * 0x800) % 0x800 == addr % 0x800) by (nonlinear_arith)
            requires
                0 <= k < 4,
                0 <= addr,
        ;
    }
    assert(decode(addr).1 == addr % 0x800);
}

/// Any address `0x2000 + 8k + r` of the PPU window decodes to register `r`,
/// so a write there is the same write as one to `0x2000 + r`.
pub proof fn lemma_ppu_register_mirror(m: MemoryView, k: int, r: int, v: u8)
    requires
        m.wf(),
        0 <= k < 1024,
        0 <= r < 8,
    ensures
        decode(0x2000 + 8 * k + r) == (Bank::PpuRegisters, r),
        m.store(0x2000 + 8 * k + r, v) == m.store(0x2000 + r, v),
{
    assert((8 * k + r) % 8 == r) by (nonlinear_arith)
        requires
            0 <= r < 8,
            0 <= k,
    ;
    assert(0x2000 + 8 * k + r <= 0x3FFF) by (nonlinear_arith)
        requires
            0 <= r < 8,
            0 <= k < 1024,
    ;
}

/// Above the register windows every address has a place of its own, so a
/// dump there reads back byte for byte and leaves other places alone.
pub proof fn lemma_dump_reads_back(m: MemoryView, addr: int, bytes: Seq<u8>, a: int)
    requires
        m.wf(),
        0x4020 <= addr,
        addr + bytes.len() <= 0x10000,
        0x4020 <= a <= 0xFFFF,
    ensures
        m.dump(addr, bytes).wf(),
        m.dump(addr, bytes).raw(a) == if addr <= a < addr + bytes.len() {
            bytes[a - addr]
        } else {
            m.raw(a)
        },
    decreases bytes.len(),
{
    if bytes.len() > 0 {
        let prefix = bytes.drop_last();
        lemma_dump_reads_back(m, addr, prefix, a);
        let b = addr + bytes.len() - 1;
        assert(decode(a) == decode(b) ==> a == b);
    }
}

fn zeroed(n: usize) -> (v: Vec<u8>)
    ensures
        v@ == Seq::new(n as nat, |i: int| 0u8),
{
    let mut v: Vec<u8> = Vec::new();
    while v.len() < n
        invariant
            v.len() <= n,
            forall|i: int| 0 <= i < v.len() ==> v@[i] == 0u8,
        decreases n - v.len(),
    {
        v.push(0u8);
    }
    assert(v@ =~= Seq::new(n as nat, |i: int| 0u8));
    v
}

impl Memory {
    pub open spec fn wf(&self) -> bool {
        self@.wf()
    }

    /// A bus with every bank zeroed and every register untouched.
    pub fn new() -> (r: Memory)
        ensures
            r@ == initial_memory(),
            r.wf(),
    {
        let mut ppu_status: Vec<PPURegisterStatus> = Vec::new();
        while ppu_status.len() < PPU_CTRL_REGISTERS_SIZE
            invariant
                ppu_status.len() <= 8,
                forall|i: int| 0 <= i < ppu_status.len() ==> ppu_status@[i] == PPURegisterStatus::Untouched,
            decreases 8 - ppu_status.len(),
        {
            ppu_status.push(PPURegisterStatus::Untouched);
        }
        let mut misc_status: Vec<MiscRegisterStatus> = Vec::new();
        while misc_status.len() < MISC_CTRL_REGISTERS_SIZE
            invariant
                misc_status.len() <= 0x20,
                forall|i: int| 0 <= i < misc_status.len() ==> misc_status@[i] == MiscRegisterStatus::Untouched,
            decreases 0x20 - misc_status.len(),
        {
            misc_status.push(MiscRegisterStatus::Untouched);
        }
        let r = Memory {
            ram: zeroed(RAM_SIZE),
            ppu_ctrl_registers: zeroed(PPU_CTRL_REGISTERS_SIZE),
            ppu_ctrl_registers_status: ppu_status,
            misc_ctrl_registers: zeroed(MISC_CTRL_REGISTERS_SIZE),
            misc_ctrl_registers_status: misc_status,
            expansion_rom: zeroed(EXPANSION_ROM_SIZE),
            sram: zeroed(SRAM_SIZE),
            prg_rom_1: zeroed(PRG_ROM_SIZE),
            prg_rom_2: zeroed(PRG_ROM_SIZE),
        };
        assert(r@ =~= initial_memory());
        r
    }

    fn bank_read(&self, bank: Bank, idx: usize) -> (r: u8)
        requires
            self.wf(),
            idx < self@.bank(bank).len(),
        ensures
            r == self@.bank(bank)[idx as int],
    {
        match bank {
            Bank::Ram => self.ram[idx],
            Bank::PpuRegisters => self.ppu_ctrl_registers[idx],
            Bank::MiscRegisters => self.misc_ctrl_registers[idx],
            Bank::ExpansionRom => self.expansion_rom[idx],
            Bank::Sram => self.sram[idx],
            Bank::PrgRom1 => self.prg_rom_1[idx],
            Bank::PrgRom2 => self.prg_rom_2[idx],
        }
    }

    fn bank_write(&mut self, bank: Bank, idx: usize, v: u8)
        requires
            old(self).wf(),
            idx < old(self)@.bank(bank).len(),
        ensures
            final(self)@ == old(self)@.with_bank(bank, old(self)@.bank(bank).update(idx as int, v)),
            final(self).wf(),
    {
        match bank {
            Bank::Ram => self.ram.set(idx, v),
            Bank::PpuRegisters => self.ppu_ctrl_registers.set(idx, v),
            Bank::MiscRegisters => self.misc_ctrl_registers.set(idx, v),
            Bank::ExpansionRom => self.expansion_rom.set(idx, v),
            Bank::Sram => self.sram.set(idx, v),
            Bank::PrgRom1 => self.prg_rom_1.set(idx, v),
            Bank::PrgRom2 => self.prg_rom_2.set(idx, v),
        }
        assert(self@ =~= old(self)@.with_bank(bank, old(self)@.bank(bank).update(idx as int, v)));
    }

    /// Touch state of a PPU register.
    pub fn ppu_register_status(&self, index: usize) -> (r: PPURegisterStatus)
        requires
            self.wf(),
            index < 8,
        ensures
            r == self@.ppu_status[index as int],
    {
        self.ppu_ctrl_registers_status[index]
    }

    /// Touch state of an APU/IO register.
    pub fn misc_register_status(&self, index: usize) -> (r: MiscRegisterStatus)
        requires
            self.wf(),
            index < 0x20,
        ensures
            r == self@.misc_status[index as int],
    {
        self.misc_ctrl_registers_status[index]
    }

    /// Value last written to a PPU register.
    pub fn ppu_register(&self, index: usize) -> (r: u8)
        requires
            self.wf(),
            index < 8,
        ensures
            r == self@.ppu_registers[index as int],
    {
        self.ppu_ctrl_registers[index]
    }

    /// Marks the touch state as taken by the PPU: every register becomes
    /// untouched, but a single write to PPUSCROLL or PPUADDR stays.
    pub fn consume_touch_state(&mut self)
        requires
            old(self).wf(),
        ensures
            final(self)@ == old(self)@.consumed(),
            final(self).wf(),
    {
        let mut i: usize = 0;
        while i < PPU_CTRL_REGISTERS_SIZE
            invariant
                self.wf(),
                i <= 8,
                forall|j: int|
                    0 <= j < i ==> self@.ppu_status[j] == consumed_ppu_status(
                        j,
                        old(self)@.ppu_status[j],
                    ),
                forall|j: int| i <= j < 8 ==> self@.ppu_status[j] == old(self)@.ppu_status[j],
                self@ == (MemoryView { ppu_status: self@.ppu_status, ..old(self)@ }),
            decreases 8 - i,
        {
            let s = self.ppu_ctrl_registers_status[i];
            let next = if (i == 5 || i == 6) && s == PPURegisterStatus::Written {
                PPURegisterStatus::Written
            } else {
                PPURegisterStatus::Untouched
            };
            self.ppu_ctrl_registers_status.set(i, next);
            i = i + 1;
        }
        let mut k: usize = 0;
        while k < MISC_CTRL_REGISTERS_SIZE
            invariant
                self.wf(),
                k <= 0x20,
                forall|j: int| 0 <= j < k ==> self@.misc_status[j] == MiscRegisterStatus::Untouched,
                forall|j: int|
                    0 <= j < 8 ==> self@.ppu_status[j] == consumed_ppu_status(
                        j,
                        old(self)@.ppu_status[j],
                    ),
                self@ == (MemoryView {
                    ppu_status: self@.ppu_status,
                    misc_status: self@.misc_status,
                    ..old(self)@
                }),
            decreases 0x20 - k,
        {
            self.misc_ctrl_registers_status.set(k, MiscRegisterStatus::Untouched);
            k = k + 1;
        }
        assert(self@ =~= old(self)@.consumed());
    }

    /// Value last written to an APU/IO register.
    pub fn misc_register(&self, index: usize) -> (r: u8)
        requires
            self.wf(),
            index < 0x20,
        ensures
            r == self@.misc_registers[index as int],
    {
        self.misc_ctrl_registers[index]
    }

    /// Records an access to a PPU register: reads do not erase a write, and
    /// a second write becomes `WrittenTwice`.
    fn update_ppu_register_status(&mut self, addr: usize, operation: MemoryOperation)
        requires
            old(self).wf(),
            addr < 8,
        ensures
            final(self)@ == (MemoryView {
                ppu_status: old(self)@.ppu_status.update(
                    addr as int,
                    next_ppu_status(old(self)@.ppu_status[addr as int], operation),
                ),
                ..old(self)@
            }),
    {
        let current = self.ppu_ctrl_registers_status[addr];
        let next = if current == PPURegisterStatus::Written && operation == MemoryOperation::Write {
            PPURegisterStatus::WrittenTwice
        } else if current != PPURegisterStatus::Written && current != PPURegisterStatus::WrittenTwice {
            match operation {
                MemoryOperation::Read => PPURegisterStatus::Read,
                MemoryOperation::Write => PPURegisterStatus::Written,
                MemoryOperation::Nop => current,
            }
        } else {
            current
        };
        self.ppu_ctrl_registers_status.set(addr, next);
        assert(self@ =~= (MemoryView {
            ppu_status: old(self)@.ppu_status.update(
                addr as int,
                next_ppu_status(old(self)@.ppu_status[addr as int], operation),
            ),
            ..old(self)@
        }));
    }

    /// Read/write permissions of a PPU register; the access is recorded.
    fn map_ppu_registers(&mut self, addr: usize, operation: MemoryOperation) -> (r: (
        Bank,
        usize,
        bool,
        bool,
    ))
        requires
            old(self).wf(),
            addr < 8,
        ensures
            final(self)@ == (MemoryView {
                ppu_status: old(self)@.ppu_status.update(
                    addr as int,
                    next_ppu_status(old(self)@.ppu_status[addr as int], operation),
                ),
                ..old(self)@
            }),
            r == (Bank::PpuRegisters, addr, addr == 2 || addr == 4 || addr == 7, addr != 2),
    {
        self.update_ppu_register_status(addr, operation);
        match addr {
            0 => (Bank::PpuRegisters, addr, false, true),
            1 => (Bank::PpuRegisters, addr, false, true),
            2 => (Bank::PpuRegisters, addr, true, false),
            3 => (Bank::PpuRegisters, addr, false, true),
            4 => (Bank::PpuRegisters, addr, true, true),
            5 => (Bank::PpuRegisters, addr, false, true),
            6 => (Bank::PpuRegisters, addr, false, true),
            _ => (Bank::PpuRegisters, addr, true, true),
        }
    }

    /// Records an access to an APU/IO register.
    fn update_misc_register_status(&mut self, addr: usize, operation: MemoryOperation)
        requires
            old(self).wf(),
            addr < 0x20,
        ensures
            final(self)@ == (MemoryView {
                misc_status: old(self)@.misc_status.update(
                    addr as int,
                    next_misc_status(old(self)@.misc_status[addr as int], operation),
                ),
                ..old(self)@
            }),
    {
        let next = match operation {
            MemoryOperation::Read => MiscRegisterStatus::Read,
            MemoryOperation::Write => MiscRegisterStatus::Written,
            MemoryOperation::Nop => self.misc_ctrl_registers_status[addr],
        };
        self.misc_ctrl_registers_status.set(addr, next);
        assert(self@ =~= (MemoryView {
            misc_status: old(self)@.misc_status.update(
                addr as int,
                next_misc_status(old(self)@.misc_status[addr as int], operation),
            ),
            ..old(self)@
        }));
    }

    /// Read/write permissions of an APU/IO register; the access is recorded.
    /// The DMA trigger can only be written.
    fn map_misc_registers(&mut self, addr: usize, operation: MemoryOperation) -> (r: (
        Bank,
        usize,
        bool,
        bool,
    ))
        requires
            old(self).wf(),
            addr < 0x20,
        ensures
            final(self)@ == (MemoryView {
                misc_status: old(self)@.misc_status.update(
                    addr as int,
                    next_misc_status(old(self)@.misc_status[addr as int], operation),
                ),
                ..old(self)@
            }),
            r == (Bank::MiscRegisters, addr, addr != 0x14, true),
    {
        self.update_misc_register_status(addr, operation);
        if addr == 0x14 {
            (Bank::MiscRegisters, addr, false, true)
        } else {
            (Bank::MiscRegisters, addr, true, true)
        }
    }

    /// Decodes a virtual address into a bank, an index in it and the
    /// read/write permissions, recording accesses to I/O registers.
    fn map(&mut self, addr: usize, operation: MemoryOperation) -> (r: (Bank, usize, bool, bool))
        requires
            old(self).wf(),
            addr <= 0xFFFF,
        ensures
            final(self)@ == old(self)@.touch(addr as int, operation),
            final(self).wf(),
            r.0 == decode(addr as int).0,
            r.1 as int == decode(addr as int).1,
            r.1 < final(self)@.bank(r.0).len(),
            r.2 == readable(addr as int),
            r.3 == writable(addr as int),
    {
        if addr <= RAM_END_ADDR {
            (Bank::Ram, addr, true, true)
        } else if addr <= RAM_MIRROR_END {
            (Bank::Ram, addr % RAM_SIZE, true, true)
        } else if addr <= PPU_CTRL_REGISTERS_END {
            self.map_ppu_registers(addr - PPU_CTRL_REGISTERS_START, operation)
        } else if addr <= PPU_CTRL_REGISTERS_MIRROR_END {
            self.map_ppu_registers((addr - PPU_CTRL_REGISTERS_START) % PPU_CTRL_REGISTERS_SIZE, operation)
        } else if addr <= MISC_CTRL_REGISTERS_END {
            self.map_misc_registers(addr - MISC_CTRL_REGISTERS_START, operation)
        } else if addr <= EXPANSION_ROM_END {
            (Bank::ExpansionRom, addr - EXPANSION_ROM_START, true, false)
        } else if addr <= SRAM_END {
            (Bank::Sram, addr - SRAM_START, true, true)
        } else if addr <= PRG_ROM_1_END {
            (Bank::PrgRom1, addr - PRG_ROM_1_START, true, false)
        } else {
            (Bank::PrgRom2, addr - PRG_ROM_2_START, true, false)
        }
    }

    /// Reads a byte at a virtual address. Unreadable registers read as 0.
    pub fn read_u8(&mut self, addr: usize) -> (r: u8)
        requires
            old(self).wf(),
            addr <= 0xFFFF,
        ensures
            r == old(self)@.peek(addr as int),
            final(self)@ == old(self)@.after_read(addr as int),
            final(self).wf(),
    {
        let (bank, idx, readable, _) = self.map(addr, MemoryOperation::Read);
        if readable {
            self.bank_read(bank, idx)
        } else {
            0
        }
    }

    /// Writes a byte at a virtual address. Writes to read-only places are
    /// dropped.
    pub fn write_u8(&mut self, addr: usize, val: u8)
        requires
            old(self).wf(),
            addr <= 0xFFFF,
        ensures
            final(self)@ == old(self)@.store(addr as int, val),
            final(self).wf(),
    {
        let (bank, idx, _, writable) = self.map(addr, MemoryOperation::Write);
        if writable {
            self.bank_write(bank, idx, val);
        }
    }

    /// Reads a byte whatever the permissions, leaving the touch state alone.
    pub fn read_u8_unrestricted(&mut self, addr: usize) -> (r: u8)
        requires
            old(self).wf(),
            addr <= 0xFFFF,
        ensures
            r == old(self)@.raw(addr as int),
            final(self)@ == old(self)@,
            final(self).wf(),
    {
        proof {
            lemma_touch_nop(self@, addr as int);
        }
        let (bank, idx, _, _) = self.map(addr, MemoryOperation::Nop);
        self.bank_read(bank, idx)
    }

    /// Writes a byte whatever the permissions, leaving the touch state alone.
    pub fn write_u8_unrestricted(&mut self, addr: usize, val: u8)
        requires
            old(self).wf(),
            addr <= 0xFFFF,
        ensures
            final(self)@ == old(self)@.set_raw(addr as int, val),
            final(self).wf(),
    {
        proof {
            lemma_touch_nop(self@, addr as int);
        }
        let (bank, idx, _, _) = self.map(addr, MemoryOperation::Nop);
        self.bank_write(bank, idx, val);
    }

    /// Reads a little-endian word whose low byte is at `addr`.
    pub fn read_u16(&mut self, addr: usize) -> (r: u16)
        requires
            old(self).wf(),
            addr < 0xFFFF,
        ensures
            r == word(
                old(self)@.peek(addr as int),
                old(self)@.after_read(addr as int).peek(addr + 1),
            ),
            final(self)@ == old(self)@.after_read(addr as int).after_read(addr + 1),
            final(self).wf(),
    {
        let lsb = self.read_u8(addr);
        let msb = self.read_u8(addr + 1);
        le_word(lsb, msb)
    }

    /// Reads a little-endian word whose high byte is at `addr`.
    pub fn read_u16_alt(&mut self, addr: usize) -> (r: u16)
        requires
            old(self).wf(),
            1 <= addr <= 0xFFFF,
        ensures
            r == word(
                old(self)@.peek(addr - 1),
                old(self)@.after_read(addr - 1).peek(addr as int),
            ),
            final(self)@ == old(self)@.after_read(addr - 1).after_read(addr as int),
            final(self).wf(),
    {
        let lsb = self.read_u8(addr - 1);
        let msb = self.read_u8(addr);
        le_word(lsb, msb)
    }

    /// Reads a little-endian word whose low byte is at `addr`; when that is
    /// the last byte of a page the high byte comes from the start of the same
    /// page, as the 2A03's indirect addressing does.
    pub fn read_u16_wrapped_msb(&mut self, addr: usize) -> (r: u16)
        requires
            old(self).wf(),
            addr <= 0xFFFF,
        ensures
            (r, final(self)@) == read_wrapped(old(self)@, addr as int),
            final(self).wf(),
    {
        let lsb = self.read_u8(addr);
        let msb = if addr % 0x100 == 0xFF {
            self.read_u8(addr - 0xFF)
        } else {
            self.read_u8(addr + 1)
        };
        le_word(lsb, msb)
    }

    /// Same as `read_u16_wrapped_msb` for a caller that holds the address
    /// just after the low byte.
    pub fn read_u16_wrapped_msb_alt(&mut self, addr: usize) -> (r: u16)
        requires
            old(self).wf(),
            1 <= addr <= 0x10000,
        ensures
            (r, final(self)@) == read_wrapped(old(self)@, addr - 1),
            final(self).wf(),
    {
        self.read_u16_wrapped_msb(addr - 1)
    }

    /// Reads a word with the page-wrap bug whatever the permissions, leaving
    /// the touch state alone.
    pub fn read_u16_wrapped_msb_unrestricted(&mut self, addr: usize) -> (r: u16)
        requires
            old(self).wf(),
            addr <= 0xFFFF,
        ensures
            r == raw_wrapped(old(self)@, addr as int),
            final(self)@ == old(self)@,
            final(self).wf(),
    {
        let lsb = self.read_u8_unrestricted(addr);
        let msb = if addr % 0x100 == 0xFF {
            self.read_u8_unrestricted(addr - 0xFF)
        } else {
            self.read_u8_unrestricted(addr + 1)
        };
        le_word(lsb, msb)
    }

    /// Writes a little-endian word with its low byte at `addr`.
    pub fn write_u16(&mut self, addr: usize, val: u16)
        requires
            old(self).wf(),
            addr < 0xFFFF,
        ensures
            final(self)@ == old(self)@.store(addr as int, (val % 256) as u8).store(
                addr + 1,
                (val / 256) as u8,
            ),
            final(self).wf(),
    {
        let (lsb, msb) = le_bytes(val);
        self.write_u8(addr, lsb);
        self.write_u8(addr + 1, msb);
    }

    /// Writes a little-endian word with its high byte at `addr`.
    pub fn write_u16_alt(&mut self, addr: usize, val: u16)
        requires
            old(self).wf(),
            1 <= addr <= 0xFFFF,
        ensures
            final(self)@ == old(self)@.store(addr - 1, (val % 256) as u8).store(
                addr as int,
                (val / 256) as u8,
            ),
            final(self).wf(),
    {
        let (lsb, msb) = le_bytes(val);
        self.write_u8(addr - 1, lsb);
        self.write_u8(addr, msb);
    }

    /// Copies `buf` to the bus from `addr` on, whatever the permissions.
    pub fn memdump(&mut self, addr: usize, buf: &[u8])
        requires
            old(self).wf(),
            addr + buf@.len() <= 0x10000,
        ensures
            final(self)@ == old(self)@.dump(addr as int, buf@),
            final(self).wf(),
    {
        let mut i: usize = 0;
        while i < buf.len()
            invariant
                self.wf(),
                i <= buf@.len(),
                addr + buf@.len() <= 0x10000,
                self@ == old(self)@.dump(addr as int, buf@.subrange(0, i as int)),
            decreases buf@.len() - i,
        {
            assert(buf@.subrange(0, i + 1).drop_last() =~= buf@.subrange(0, i as int));
            self.write_u8_unrestricted(addr + i, buf[i]);
            i = i + 1;
        }
        assert(buf@.subrange(0, i as int) =~= buf@);
    }

    /// Pushes a byte: it is written at `$0100 + SP`, then SP goes down by one
    /// (wrapping within the page).
    pub fn stack_push_u8(&mut self, cpu: &mut CPU, value: u8)
        requires
            old(self).wf(),
        ensures
            (final(self)@, final(cpu).sp) == stack_push(old(self)@, old(cpu).sp, value),
            *final(cpu) == (CPU { sp: final(cpu).sp, ..*old(cpu) }),
            final(self).wf(),
    {
        self.write_u8(STACK_OFFSET + cpu.sp as usize, value);
        cpu.sp = cpu.sp.wrapping_sub(1);
    }

    /// Pops a byte: SP goes up by one (wrapping within the page), then the
    /// byte at `$0100 + SP` is read.
    pub fn stack_pop_u8(&mut self, cpu: &mut CPU) -> (r: u8)
        requires
            old(self).wf(),
        ensures
            (r, final(self)@, final(cpu).sp) == stack_pop(old(self)@, old(cpu).sp),
            *final(cpu) == (CPU { sp: final(cpu).sp, ..*old(cpu) }),
            final(self).wf(),
    {
        cpu.sp = cpu.sp.wrapping_add(1);
        self.read_u8(STACK_OFFSET + cpu.sp as usize)
    }

    /// Pushes a word, its high byte at the higher address.
    pub fn stack_push_u16(&mut self, cpu: &mut CPU, value: u16)
        requires
            old(self).wf(),
        ensures
            (final(self)@, final(cpu).sp) == stack_push_word(old(self)@, old(cpu).sp, value),
            *final(cpu) == (CPU { sp: final(cpu).sp, ..*old(cpu) }),
            final(self).wf(),
    {
        let (lsb, msb) = le_bytes(value);
        self.stack_push_u8(cpu, msb);
        self.stack_push_u8(cpu, lsb);
    }

    /// Pops a word pushed by `stack_push_u16`.
    pub fn stack_pop_u16(&mut self, cpu: &mut CPU) -> (r: u16)
        requires
            old(self).wf(),
        ensures
            (r, final(self)@, final(cpu).sp) == stack_pop_word(old(self)@, old(cpu).sp),
            *final(cpu) == (CPU { sp: final(cpu).sp, ..*old(cpu) }),
            final(self).wf(),
    {
        let lsb = self.stack_pop_u8(cpu);
        let msb = self.stack_pop_u8(cpu);
        le_word(lsb, msb)
    }
}

} // verus!
