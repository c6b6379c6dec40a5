use vstd::prelude::*;

use crate::memory::{Memory, MemoryView, MiscRegisterStatus, PPURegisterStatus};
use crate::nes::NESRuntimeOptions;

verus! {

// Sizes of the PPU's own memory.
pub const SPR_RAM_SIZE: usize = 0x00FF;
pub const PATTERN_TABLES_SIZE: usize = 0x2000;
pub const NAME_TABLES_SIZE: usize = 0x1000;
pub const PALETTES_SIZE: usize = 0x0020;

// Indices of the I/O registers the PPU watches.
pub const PPUSCROLL: usize = 0x05;
pub const PPUADDR: usize = 0x06;
pub const OAMDMA: usize = 0x14;

// Bit masks of PPUCTRL, PPUMASK and PPUSTATUS.
pub const PPUCTRL_BASE_NAMETABLE_ADDRESS: u8 = 0b00000011;
pub const PPUCTRL_VRAM_ADDRESS_INCREMENT: u8 = 0b00000100;
pub const PPUCTRL_SPRITE_PATTERN_TABLE_ADDRESS: u8 = 0b00001000;
pub const PPUCTRL_BACKGROUND_PATTERN_TABLE_ADDRESS: u8 = 0b00010000;
pub const PPUCTRL_SPRITE_SIZE: u8 = 0b00100000;
pub const PPUCTRL_MASTER_SLAVE_SELECT: u8 = 0b01000000;
pub const PPUCTRL_NMI_ENABLE: u8 = 0b10000000;
pub const PPUMASK_GREYSCALE: u8 = 0b00000001;
pub const PPUMASK_SHOW_BACKGROUND_LEFT: u8 = 0b00000010;
pub const PPUMASK_SHOW_SPRITES_LEFT: u8 = 0b00000100;
pub const PPUMASK_SHOW_BACKGROUND: u8 = 0b00001000;
pub const PPUMASK_SHOW_SPRITES: u8 = 0b00010000;
pub const PPUMASK_EMPHASIZE_RED: u8 = 0b00100000;
pub const PPUMASK_EMPHASIZE_GREEN: u8 = 0b01000000;
pub const PPUMASK_EMPHASIZE_BLUE: u8 = 0b10000000;
pub const PPUSTATUS_REGISTER_BITS: u8 = 0b00011111;
pub const PPUSTATUS_SPRITE_OVERFLOW: u8 = 0b00100000;
pub const PPUSTATUS_SPRITE_0_HIT: u8 = 0b01000000;
pub const PPUSTATUS_VBLANK: u8 = 0b10000000;

/// Sprite size selected in PPUCTRL.
#[derive(Clone, Copy, Debug, PartialEq, Eq, Structural)]
pub enum SpriteSize {
    Bounds8x8,
    Bounds8x16,
}

/// Master/slave select of PPUCTRL.
#[derive(Clone, Copy, Debug, PartialEq, Eq, Structural)]
pub enum MasterSlaveSelect {
    ReadBackdrop,
    OutputColor,
}

/// Banks of the PPU's own address space.
#[derive(Clone, Copy, Debug, PartialEq, Eq, Structural)]
pub enum PpuBank {
    PatternTables,
    NameTables,
    Palettes,
}

/// Register accesses the PPU does not handle yet.
#[derive(Clone, Copy, Debug, PartialEq, Eq, Structural)]
pub enum PpuError {
    /// A sprite DMA was triggered with this page.
    DmaUnimplemented(u8),
}

/// Bank and index of a PPU address; everything above `$3FFF` mirrors
/// `$0000-$3FFF`.
pub open spec fn ppu_decode(addr: int) -> (PpuBank, int)
    decreases addr,
{
    if addr <= 0x1FFF {
        (PpuBank::PatternTables, addr)
    } else if addr <= 0x2FFF {
        (PpuBank::NameTables, addr - 0x2000)
    } else if addr <= 0x3EFF {
        (PpuBank::NameTables, (addr - 0x2000) % 0x1000)
    } else if addr <= 0x3F1F {
        (PpuBank::Palettes, addr - 0x3F00)
    } else if addr <= 0x3FFF {
        (PpuBank::Palettes, (addr - 0x3F00) % 0x20)
    } else {
        ppu_decode(addr - 0x4000)
    }
}

/// Whether the index an address decodes to lies inside its bank.
pub open spec fn ppu_decode_in_range(addr: int) -> bool {
    let (bank, idx) = ppu_decode(addr);
    0 <= idx && match bank {
        PpuBank::PatternTables => idx < PATTERN_TABLES_SIZE,
        PpuBank::NameTables => idx < NAME_TABLES_SIZE,
        PpuBank::Palettes => idx < PALETTES_SIZE,
    }
}

proof fn lemma_ppu_decode_range(addr: int)
    requires
        0 <= addr,
    ensures
        ppu_decode_in_range(addr),
    decreases addr,
{
    if addr > 0x3FFF {
        lemma_ppu_decode_range(addr - 0x4000);
    }
}

/// A sprite DMA written since the last PPU step, which cannot be served.
pub open spec fn dma_fault(m: MemoryView) -> Option<PpuError> {
    if m.misc_status[OAMDMA as int] == MiscRegisterStatus::Written {
        Some(PpuError::DmaUnimplemented(m.misc_registers[OAMDMA as int]))
    } else {
        None
    }
}

/// Whether the CPU wrote a register since the PPU last looked.
pub open spec fn written(s: PPURegisterStatus) -> bool {
    s == PPURegisterStatus::Written || s == PPURegisterStatus::WrittenTwice
}

/// The PPU's copy of register `index`: the CPU's latest write, if any.
pub open spec fn latched(current: u8, m: MemoryView, index: int) -> u8 {
    if written(m.ppu_status[index]) {
        m.ppu_registers[index]
    } else {
        current
    }
}

/// The PPU's copy of a two-write register, taken once both writes came.
pub open spec fn latched_twice(current: u8, m: MemoryView, index: int) -> u8 {
    if m.ppu_status[index] == PPURegisterStatus::WrittenTwice {
        m.ppu_registers[index]
    } else {
        current
    }
}

/// The tick counter after one more tick, wrapping.
pub open spec fn next_tick(t: u64) -> u64 {
    if t == u64::MAX {
        0
    } else {
        (t + 1) as u64
    }
}

/// The picture processing unit as far as the CPU sees it: its registers,
/// its memory, and the watch it keeps on the I/O registers.
pub struct PPU {
    pub ppu_ctrl: u8,
    pub ppu_mask: u8,
    pub ppu_status: u8,
    pub oam_address: u8,
    pub oam_data: u8,
    pub ppu_scroll: u8,
    pub ppu_addr: u8,
    pub ppu_data: u8,
    /// Steps taken since power-up, wrapping.
    pub ticks: u64,
    pub runtime_options: NESRuntimeOptions,
    pub pattern_tables: Vec<u8>,
    pub name_tables: Vec<u8>,
    pub palettes: Vec<u8>,
    pub spr_ram: Vec<u8>,
}

impl PPU {
    /// The PPU after one step on the bus `m`: written registers are latched
    /// (a write to OAMDATA moves OAMADDR on; PPUSCROLL and PPUADDR wait for
    /// their second write) and one more tick is counted.
    pub open spec fn after_step(self, m: MemoryView) -> PPU {
        let oam = latched(self.oam_address, m, 3);
        PPU {
            ppu_ctrl: latched(self.ppu_ctrl, m, 0),
            ppu_mask: latched(self.ppu_mask, m, 1),
            oam_address: if written(m.ppu_status[4]) {
                ((oam + 1) % 256) as u8
            } else {
                oam
            },
            oam_data: latched(self.oam_data, m, 4),
            ppu_scroll: latched_twice(self.ppu_scroll, m, 5),
            ppu_addr: latched_twice(self.ppu_addr, m, 6),
            ppu_data: latched(self.ppu_data, m, 7),
            ticks: next_tick(self.ticks),
            ..self
        }
    }
}

/// PPU and bus after `n` PPU steps that met no DMA.
pub open spec fn ppu_run(p: PPU, m: MemoryView, n: nat) -> (PPU, MemoryView)
    decreases n,
{
    if n == 0 {
        (p, m)
    } else {
        let (p1, m1) = ppu_run(p, m, (n - 1) as nat);
        (p1.after_step(m1), m1.consumed())
    }
}

/// Once the PPU has stepped, no DMA is pending.
pub proof fn lemma_run_consumes(p: PPU, m: MemoryView, n: nat)
    requires
        n > 0,
    ensures
        ppu_run(p, m, n).1 == m.consumed(),
        dma_fault(ppu_run(p, m, n).1).is_none(),
    decreases n,
{
    if n > 1 {
        lemma_run_consumes(p, m, (n - 1) as nat);
        let c = m.consumed();
        assert(c.consumed().ppu_status =~= c.ppu_status);
        assert(c.consumed().misc_status =~= c.misc_status);
        assert(c.consumed() =~= c);
        assert(ppu_run(p, m, n).1 == ppu_run(p, m, (n - 1) as nat).1.consumed());
    } else {
        assert(ppu_run(p, m, 0) == (p, m));
        assert(ppu_run(p, m, n).1 == m.consumed());
    }
}

/// `n` PPU steps count `n` ticks.
pub proof fn lemma_run_ticks(p: PPU, m: MemoryView, n: nat)
    ensures
        ppu_run(p, m, n).0.ticks == (p.ticks + n) % 0x1_0000_0000_0000_0000,
    decreases n,
{
    if n > 0 {
        lemma_run_ticks(p, m, (n - 1) as nat);
    }
}

fn zero_bytes(n: usize) -> (v: Vec<u8>)
    ensures
        v@.len() == n,
{
    let mut v: Vec<u8> = Vec::new();
    while v.len() < n
        invariant
            v.len() <= n,
        decreases n - v.len(),
    {
        v.push(0u8);
    }
    v
}

impl PPU {
    pub open spec fn wf(&self) -> bool {
        &&& self.pattern_tables@.len() == PATTERN_TABLES_SIZE
        &&& self.name_tables@.len() == NAME_TABLES_SIZE
        &&& self.palettes@.len() == PALETTES_SIZE
        &&& self.spr_ram@.len() == SPR_RAM_SIZE
    }

    pub open spec fn ctrl(&self) -> u8 {
        self.ppu_ctrl
    }

    pub open spec fn mask(&self) -> u8 {
        self.ppu_mask
    }

    pub open spec fn status(&self) -> u8 {
        self.ppu_status
    }

    /// Byte behind a PPU address.
    pub open spec fn spec_read(&self, addr: int) -> u8 {
        let (bank, idx) = ppu_decode(addr);
        match bank {
            PpuBank::PatternTables => self.pattern_tables@[idx],
            PpuBank::NameTables => self.name_tables@[idx],
            PpuBank::Palettes => self.palettes@[idx],
        }
    }

    /// A PPU in its power-up state: PPUSTATUS `0b10100000`, every other
    /// register and all memory zeroed.
    pub fn new(runtime_options: NESRuntimeOptions) -> (r: PPU)
        ensures
            r.wf(),
            r.ctrl() == 0,
            r.mask() == 0,
            r.status() == 0b10100000,
            r.ticks == 0,
    {
        PPU {
            ppu_ctrl: 0,
            ppu_mask: 0,
            ppu_status: 0b10100000,
            oam_address: 0,
            oam_data: 0,
            ppu_scroll: 0,
            ppu_addr: 0,
            ppu_data: 0,
            ticks: 0,
            runtime_options: runtime_options,
            pattern_tables: zero_bytes(PATTERN_TABLES_SIZE),
            name_tables: zero_bytes(NAME_TABLES_SIZE),
            palettes: zero_bytes(PALETTES_SIZE),
            spr_ram: zero_bytes(SPR_RAM_SIZE),
        }
    }

    /// Maps a PPU address to a bank and an index in it.
    pub fn map(&self, addr: usize) -> (r: (PpuBank, usize))
        requires
            addr <= 0xFFFF,
        ensures
            r.0 == ppu_decode(addr as int).0,
            r.1 as int == ppu_decode(addr as int).1,
            r.0 == PpuBank::PatternTables ==> r.1 < PATTERN_TABLES_SIZE,
            r.0 == PpuBank::NameTables ==> r.1 < NAME_TABLES_SIZE,
            r.0 == PpuBank::Palettes ==> r.1 < PALETTES_SIZE,
        decreases addr,
    {
        if addr <= 0x1FFF {
            (PpuBank::PatternTables, addr)
        } else if addr <= 0x2FFF {
            (PpuBank::NameTables, addr - 0x2000)
        } else if addr <= 0x3EFF {
            (PpuBank::NameTables, (addr - 0x2000) % NAME_TABLES_SIZE)
        } else if addr <= 0x3F1F {
            (PpuBank::Palettes, addr - 0x3F00)
        } else if addr <= 0x3FFF {
            (PpuBank::Palettes, (addr - 0x3F00) % PALETTES_SIZE)
        } else {
            self.map(addr - 0x4000)
        }
    }

    /// Reads a byte of PPU memory.
    pub fn read_u8(&self, addr: usize) -> (r: u8)
        requires
            self.wf(),
            addr <= 0xFFFF,
        ensures
            r == self.spec_read(addr as int),
    {
        let (bank, idx) = self.map(addr);
        match bank {
            PpuBank::PatternTables => self.pattern_tables[idx],
            PpuBank::NameTables => self.name_tables[idx],
            PpuBank::Palettes => self.palettes[idx],
        }
    }

    /// Writes a byte of PPU memory.
    pub fn write_u8(&mut self, addr: usize, value: u8)
        requires
            old(self).wf(),
            addr <= 0xFFFF,
        ensures
            final(self).wf(),
            final(self).spec_read(addr as int) == value,
            forall|a: int|
                0 <= a <= 0xFFFF && ppu_decode(a) != ppu_decode(addr as int) ==> #[trigger] final(self).spec_read(a)
                    == old(self).spec_read(a),
    {
        let (bank, idx) = self.map(addr);
        match bank {
            PpuBank::PatternTables => self.pattern_tables.set(idx, value),
            PpuBank::NameTables => self.name_tables.set(idx, value),
            PpuBank::Palettes => self.palettes.set(idx, value),
        }
        proof {
            assert forall|a: int|
                0 <= a <= 0xFFFF && ppu_decode(a) != ppu_decode(
                    addr as int,
                ) implies #[trigger] self.spec_read(a) == old(self).spec_read(a) by {
                lemma_ppu_decode_range(a);
                let (b, i) = ppu_decode(a);
                assert(b != bank || i != idx);
            }
        }
    }

    /// Base nametable address selected by PPUCTRL.
    pub fn ppu_ctrl_base_nametable_address(&self) -> (r: usize)
        ensures
            r == 0x2000 + 0x400 * (self.ctrl() & PPUCTRL_BASE_NAMETABLE_ADDRESS),
    {
        let ctrl = self.ppu_ctrl;
        assert(ctrl & 3 <= 3) by (bit_vector);
        match ctrl & PPUCTRL_BASE_NAMETABLE_ADDRESS {
            0 => 0x2000,
            1 => 0x2400,
            2 => 0x2800,
            _ => 0x2C00,
        }
    }

    /// VRAM address increment per PPUDATA access: 1 or 32.
    pub fn ppu_ctrl_vram_address_increment(&self) -> (r: u8)
        ensures
            r == (if self.ctrl() & PPUCTRL_VRAM_ADDRESS_INCREMENT == 0 {
                1u8
            } else {
                32u8
            }),
    {
        if self.ppu_ctrl & PPUCTRL_VRAM_ADDRESS_INCREMENT == 0 {
            1
        } else {
            32
        }
    }

    /// Pattern table used for 8x8 sprites.
    pub fn ppu_ctrl_sprite_pattern_table_address(&self) -> (r: usize)
        ensures
            r == (if self.ctrl() & PPUCTRL_SPRITE_PATTERN_TABLE_ADDRESS == 0 {
                0x0000usize
            } else {
                0x1000usize
            }),
    {
        if self.ppu_ctrl & PPUCTRL_SPRITE_PATTERN_TABLE_ADDRESS == 0 {
            0x0000
        } else {
            0x1000
        }
    }

    /// Pattern table used for the background.
    pub fn ppu_ctrl_background_pattern_table_address(&self) -> (r: usize)
        ensures
            r == (if self.ctrl() & PPUCTRL_BACKGROUND_PATTERN_TABLE_ADDRESS == 0 {
                0x0000usize
            } else {
                0x1000usize
            }),
    {
        if self.ppu_ctrl & PPUCTRL_BACKGROUND_PATTERN_TABLE_ADDRESS == 0 {
            0x0000
        } else {
            0x1000
        }
    }

    /// Sprite size selected in PPUCTRL.
    pub fn ppu_ctrl_sprite_size(&self) -> (r: SpriteSize)
        ensures
            r == (if self.ctrl() & PPUCTRL_SPRITE_SIZE == 0 {
                SpriteSize::Bounds8x8
            } else {
                SpriteSize::Bounds8x16
            }),
    {
        if self.ppu_ctrl & PPUCTRL_SPRITE_SIZE == 0 {
            SpriteSize::Bounds8x8
        } else {
            SpriteSize::Bounds8x16
        }
    }

    /// Master/slave select of PPUCTRL.
    pub fn ppu_ctrl_master_slave_select(&self) -> (r: MasterSlaveSelect)
        ensures
            r == (if self.ctrl() & PPUCTRL_MASTER_SLAVE_SELECT == 0 {
                MasterSlaveSelect::ReadBackdrop
            } else {
                MasterSlaveSelect::OutputColor
            }),
    {
        if self.ppu_ctrl & PPUCTRL_MASTER_SLAVE_SELECT == 0 {
            MasterSlaveSelect::ReadBackdrop
        } else {
            MasterSlaveSelect::OutputColor
        }
    }

    /// Whether the NMI at vertical blank is enabled.
    pub fn ppu_ctrl_nmi_enabled(&self) -> (r: bool)
        ensures
            r == (self.ctrl() & PPUCTRL_NMI_ENABLE > 0),
    {
        self.ppu_ctrl & PPUCTRL_NMI_ENABLE > 0
    }

    /// Whether greyscale display is on.
    pub fn ppu_mask_greyscale(&self) -> (r: bool)
        ensures
            r == (self.mask() & PPUMASK_GREYSCALE > 0),
    {
        self.ppu_mask & PPUMASK_GREYSCALE > 0
    }

    /// Whether the background shows in the leftmost 8 pixels.
    pub fn ppu_mask_show_background_left(&self) -> (r: bool)
        ensures
            r == (self.mask() & PPUMASK_SHOW_BACKGROUND_LEFT > 0),
    {
        self.ppu_mask & PPUMASK_SHOW_BACKGROUND_LEFT > 0
    }

    /// Whether sprites show in the leftmost 8 pixels.
    pub fn ppu_mask_show_sprites_left(&self) -> (r: bool)
        ensures
            r == (self.mask() & PPUMASK_SHOW_SPRITES_LEFT > 0),
    {
        self.ppu_mask & PPUMASK_SHOW_SPRITES_LEFT > 0
    }

    /// Whether the background shows.
    pub fn ppu_mask_show_background(&self) -> (r: bool)
        ensures
            r == (self.mask() & PPUMASK_SHOW_BACKGROUND > 0),
    {
        self.ppu_mask & PPUMASK_SHOW_BACKGROUND > 0
    }

    /// Whether sprites show.
    pub fn ppu_mask_show_sprites(&self) -> (r: bool)
        ensures
            r == (self.mask() & PPUMASK_SHOW_SPRITES > 0),
    {
        self.ppu_mask & PPUMASK_SHOW_SPRITES > 0
    }

    /// Whether red is emphasized.
    pub fn ppu_mask_emphasize_red(&self) -> (r: bool)
        ensures
            r == (self.mask() & PPUMASK_EMPHASIZE_RED > 0),
    {
        self.ppu_mask & PPUMASK_EMPHASIZE_RED > 0
    }

    /// Whether green is emphasized.
    pub fn ppu_mask_emphasize_green(&self) -> (r: bool)
        ensures
            r == (self.mask() & PPUMASK_EMPHASIZE_GREEN > 0),
    {
        self.ppu_mask & PPUMASK_EMPHASIZE_GREEN > 0
    }

    /// Whether blue is emphasized.
    pub fn ppu_mask_emphasize_blue(&self) -> (r: bool)
        ensures
            r == (self.mask() & PPUMASK_EMPHASIZE_BLUE > 0),
    {
        self.ppu_mask & PPUMASK_EMPHASIZE_BLUE > 0
    }

    /// The low five bits of PPUSTATUS.
    pub fn ppu_status_register_bits(&self) -> (r: u8)
        ensures
            r == self.status() & PPUSTATUS_REGISTER_BITS,
    {
        self.ppu_status & PPUSTATUS_REGISTER_BITS
    }

    /// Whether the sprite overflow bit is set.
    pub fn ppu_status_sprite_overflow(&self) -> (r: bool)
        ensures
            r == (self.status() & PPUSTATUS_SPRITE_OVERFLOW > 0),
    {
        self.ppu_status & PPUSTATUS_SPRITE_OVERFLOW > 0
    }

    /// Whether the sprite 0 hit bit is set.
    pub fn ppu_status_sprite_0_hit(&self) -> (r: bool)
        ensures
            r == (self.status() & PPUSTATUS_SPRITE_0_HIT > 0),
    {
        self.ppu_status & PPUSTATUS_SPRITE_0_HIT > 0
    }

    /// Whether the vertical blank bit is set.
    pub fn ppu_status_vblank(&self) -> (r: bool)
        ensures
            r == (self.status() & PPUSTATUS_VBLANK > 0),
    {
        self.ppu_status & PPUSTATUS_VBLANK > 0
    }

    /// A sprite DMA trigger written since the last step cannot be served yet.
    fn handle_dma_register(&self, memory: &Memory) -> (r: Option<PpuError>)
        requires
            memory.wf(),
        ensures
            r == dma_fault(memory@),
    {
        if memory.misc_register_status(OAMDMA) != MiscRegisterStatus::Written {
            return None;
        }
        Some(PpuError::DmaUnimplemented(memory.misc_register(OAMDMA)))
    }

    /// The latest CPU write to a PPU register, if there was one.
    fn latch(current: u8, memory: &Memory, index: usize) -> (r: u8)
        requires
            memory.wf(),
            index < 8,
        ensures
            r == latched(current, memory@, index as int),
    {
        let s = memory.ppu_register_status(index);
        if s == PPURegisterStatus::Written || s == PPURegisterStatus::WrittenTwice {
            memory.ppu_register(index)
        } else {
            current
        }
    }

    /// A two-write register's value once both writes came.
    fn latch_twice(current: u8, memory: &Memory, index: usize) -> (r: u8)
        requires
            memory.wf(),
            index < 8,
        ensures
            r == latched_twice(current, memory@, index as int),
    {
        if memory.ppu_register_status(index) == PPURegisterStatus::WrittenTwice {
            memory.ppu_register(index)
        } else {
            current
        }
    }

    /// Takes the values the CPU wrote to the PPU registers.
    fn check_ppu_registers(&mut self, memory: &Memory)
        requires
            memory.wf(),
        ensures
            *final(self) == (PPU { ticks: old(self).ticks, ..old(self).after_step(memory@) }),
    {
        self.ppu_ctrl = PPU::latch(self.ppu_ctrl, memory, 0);
        self.ppu_mask = PPU::latch(self.ppu_mask, memory, 1);
        let oam = PPU::latch(self.oam_address, memory, 3);
        let oam_written = memory.ppu_register_status(4);
        self.oam_address = if oam_written == PPURegisterStatus::Written || oam_written
            == PPURegisterStatus::WrittenTwice {
            ((oam as u16 + 1) % 256) as u8
        } else {
            oam
        };
        self.oam_data = PPU::latch(self.oam_data, memory, 4);
        self.ppu_scroll = PPU::latch_twice(self.ppu_scroll, memory, PPUSCROLL);
        self.ppu_addr = PPU::latch_twice(self.ppu_addr, memory, PPUADDR);
        self.ppu_data = PPU::latch(self.ppu_data, memory, 7);
    }

    /// Takes the I/O register touch state the CPU left: written PPU
    /// registers are latched and every touch state is reset, as
    /// `MemoryView::consumed` says. Returns the cycles the PPU took from the
    /// CPU (none so far), or the DMA it cannot serve.
    pub fn step(&mut self, memory: &mut Memory) -> (r: Result<u16, PpuError>)
        requires
            old(memory).wf(),
        ensures
            final(memory)@ == old(memory)@.consumed(),
            final(memory).wf(),
            *final(self) == old(self).after_step(old(memory)@),
            r == (match dma_fault(old(memory)@) {
                Some(e) => Err::<u16, PpuError>(e),
                None => Ok::<u16, PpuError>(0),
            }),
    {
        let fault = self.handle_dma_register(memory);
        self.check_ppu_registers(memory);
        self.ticks = if self.ticks == u64::MAX {
            0
        } else {
            self.ticks + 1
        };
        memory.consume_touch_state();
        match fault {
            Some(e) => Err(e),
            None => Ok(0),
        }
    }
}

} // verus!
