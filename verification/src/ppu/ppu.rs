//! The picture processing unit: video memory, sprite memory, the palette,
//! the beam position and the vertical-blank interrupt.

use vstd::prelude::*;
use crate::cartridge::Mirroring;
use crate::fault::Fault;
use crate::ppu::registers::address::AddrRegister;
use crate::ppu::registers::control::ControlRegister;
use crate::ppu::registers::mask::MaskRegister;
use crate::ppu::registers::scroll::ScrollRegister;
use crate::ppu::registers::status::StatusRegister;

verus! {

/// Dots in one scanline.
pub const DOTS_PER_SCANLINE: usize = 341;

/// The scanline on which vertical blank starts.
pub const VBLANK_SCANLINE: u16 = 241;

/// Scanlines in one field.
pub const SCANLINES_PER_FRAME: u16 = 262;

#[derive(Clone)]
pub struct PPU {
    pub chr_rom: Vec<u8>,
    pub palette: [u8; 32],
    pub vram: [u8; 2048],
    pub oam_data: [u8; 256],
    pub oam_addr: u8,
    pub mirroring: Mirroring,
    pub internal_data_buffer: u8,
    pub scanlines: u16,
    pub cycles: usize,
    pub nmi_interrupt: Option<u8>,
    pub addr: AddrRegister,
    pub control: ControlRegister,
    pub mask: MaskRegister,
    pub status: StatusRegister,
    pub scroll: ScrollRegister,
}

/// The unit as a mathematical value: its memories as sequences of bytes.
pub struct PpuState {
    pub chr_rom: Seq<u8>,
    pub palette: Seq<u8>,
    pub vram: Seq<u8>,
    pub oam_data: Seq<u8>,
    pub oam_addr: u8,
    pub mirroring: Mirroring,
    pub internal_data_buffer: u8,
    pub scanlines: u16,
    pub cycles: usize,
    pub nmi_interrupt: Option<u8>,
    pub addr: AddrRegister,
    pub control: ControlRegister,
    pub mask: MaskRegister,
    pub status: StatusRegister,
    pub scroll: ScrollRegister,
}

impl View for PPU {
    type V = PpuState;

    open spec fn view(&self) -> PpuState {
        PpuState {
            chr_rom: self.chr_rom@,
            palette: self.palette@,
            vram: self.vram@,
            oam_data: self.oam_data@,
            oam_addr: self.oam_addr,
            mirroring: self.mirroring,
            internal_data_buffer: self.internal_data_buffer,
            scanlines: self.scanlines,
            cycles: self.cycles,
            nmi_interrupt: self.nmi_interrupt,
            addr: self.addr,
            control: self.control,
            mask: self.mask,
            status: self.status,
            scroll: self.scroll,
        }
    }
}

/// Which physical nametable a logical one lives in: with horizontal
/// mirroring tables 0 and 1 share the first and 2 and 3 the second; with
/// vertical mirroring tables 0 and 2 share the first and 1 and 3 the second.
pub open spec fn physical_table(mirroring: Mirroring, table: int) -> int {
    match mirroring {
        Mirroring::HORIZONTAL => table / 2,
        Mirroring::VERTICAL => table % 2,
    }
}

/// Where in the 2 KiB of video memory a nametable address lands. The
/// address is first folded into 0x2000-0x2FFF; it then lands in the
/// physical table of its logical table, at the same place inside the table.
pub open spec fn mirrored_index(mirroring: Mirroring, addr: u16) -> int {
    let index = (addr & 0x2FFF) - 0x2000;
    physical_table(mirroring, index / 0x400) * 0x400 + index % 0x400
}

/// Where in palette memory a palette address lands: 0x3F10, 0x3F14, 0x3F18
/// and 0x3F1C are second names of 0x3F00, 0x3F04, 0x3F08 and 0x3F0C.
pub open spec fn palette_index(addr: u16) -> int {
    let i = addr - 0x3F00;
    if i == 0x10 || i == 0x14 || i == 0x18 || i == 0x1C {
        i - 0x10
    } else {
        i
    }
}

impl PpuState {
    /// The memories have their sizes and the beam is inside the field.
    pub open spec fn wf(self) -> bool {
        &&& self.palette.len() == 32
        &&& self.vram.len() == 2048
        &&& self.oam_data.len() == 256
        &&& self.cycles < DOTS_PER_SCANLINE
        &&& self.scanlines < SCANLINES_PER_FRAME
    }

    /// The unit right after power-on.
    pub open spec fn initial(chr_rom: Seq<u8>, mirroring: Mirroring) -> PpuState {
        PpuState {
            chr_rom,
            palette: Seq::new(32, |i: int| 0u8),
            vram: Seq::new(2048, |i: int| 0u8),
            oam_data: Seq::new(256, |i: int| 0u8),
            oam_addr: 0,
            mirroring,
            internal_data_buffer: 0,
            scanlines: 0,
            cycles: 0,
            nmi_interrupt: None,
            addr: AddrRegister { value: 0, hi_ptr: true },
            control: ControlRegister { bits: 0 },
            mask: MaskRegister { bits: 0 },
            status: StatusRegister { bits: 0 },
            scroll: ScrollRegister { scroll_x: 0, scroll_y: 0, latch: false },
        }
    }

    /// The unit after `cycles` dots, and whether a field ended. At most
    /// one scanline boundary is crossed per call; both counters wrap at
    /// their machine width, which a well-formed unit never reaches (see
    /// `lemma_tick_keeps_beam`). Entering scanline 241
    /// sets the vertical-blank bit, clears the sprite-0 bit and, if
    /// enabled, raises the NMI; reaching scanline 262 wraps to scanline 0,
    /// withdraws the NMI and clears both bits.
    pub open spec fn after_tick(self, cycles: u8) -> (PpuState, bool) {
        let total = self.cycles.wrapping_add(cycles as usize);
        if total < DOTS_PER_SCANLINE {
            (PpuState { cycles: total, ..self }, false)
        } else {
            let line = self.scanlines.wrapping_add(1);
            let dots = (total - DOTS_PER_SCANLINE) as usize;
            let entered = if line == VBLANK_SCANLINE {
                PpuState {
                    status: self.status.with(StatusRegister::VERTICAL_BLANK, true).with(
                        StatusRegister::SPRITE_0_HIT,
                        false,
                    ),
                    nmi_interrupt: if self.control.nmi_enabled() {
                        Some(1u8)
                    } else {
                        self.nmi_interrupt
                    },
                    ..self
                }
            } else {
                self
            };
            if line >= SCANLINES_PER_FRAME {
                (
                    PpuState {
                        cycles: dots,
                        scanlines: 0,
                        nmi_interrupt: None,
                        status: entered.status.with(StatusRegister::SPRITE_0_HIT, false).with(
                            StatusRegister::VERTICAL_BLANK,
                            false,
                        ),
                        ..entered
                    },
                    true,
                )
            } else {
                (PpuState { cycles: dots, scanlines: line, ..entered }, false)
            }
        }
    }

    /// The unit with the VRAM address moved on by the step that the
    /// control register selects.
    pub open spec fn after_step(self) -> PpuState {
        PpuState { addr: self.addr.after_increment(self.control.increment()), ..self }
    }

    /// A read of the data port. Character and nametable reads return the
    /// buffered byte of the read before and refill the buffer; a palette
    /// read returns the palette byte at once and refills the buffer from
    /// the nametable byte underneath. The address moves on in every case.
    pub open spec fn after_read_data(self) -> Result<(PpuState, u8), Fault> {
        let addr = self.addr.value;
        let s = self.after_step();
        if addr <= 0x1FFF {
            if addr < s.chr_rom.len() {
                Ok((PpuState { internal_data_buffer: s.chr_rom[addr as int], ..s }, s.internal_data_buffer))
            } else {
                Err(Fault::VideoRead { addr })
            }
        } else if addr <= 0x2FFF {
            Ok(
                (
                    PpuState {
                        internal_data_buffer: s.vram[mirrored_index(s.mirroring, addr)],
                        ..s
                    },
                    s.internal_data_buffer,
                ),
            )
        } else if 0x3F00 <= addr <= 0x3F1F {
            Ok(
                (
                    PpuState {
                        internal_data_buffer: s.vram[mirrored_index(s.mirroring, addr)],
                        ..s
                    },
                    s.palette[palette_index(addr)],
                ),
            )
        } else {
            Err(Fault::VideoRead { addr })
        }
    }

    /// A write to the data port: into the nametables or the palette.
    /// Character memory, 0x3000-0x3EFF and everything from 0x3F20 on refuse
    /// the write.
    pub open spec fn after_write_data(self, value: u8) -> Result<PpuState, Fault> {
        let addr = self.addr.value;
        let s = self.after_step();
        if 0x2000 <= addr <= 0x2FFF {
            Ok(PpuState { vram: s.vram.update(mirrored_index(s.mirroring, addr), value), ..s })
        } else if 0x3F00 <= addr <= 0x3F1F {
            Ok(PpuState { palette: s.palette.update(palette_index(addr), value), ..s })
        } else {
            Err(Fault::VideoWrite { addr })
        }
    }

    /// A run of writes to the data port, first byte first.
    pub open spec fn after_writes_data(self, data: Seq<u8>) -> Result<PpuState, Fault>
        decreases data.len(),
    {
        if data.len() == 0 {
            Ok(self)
        } else {
            match self.after_writes_data(data.drop_last()) {
                Ok(s) => s.after_write_data(data.last()),
                Err(e) => Err(e),
            }
        }
    }

    /// A run of `n` reads of the data port, and the bytes they return.
    pub open spec fn after_reads_data(self, n: nat) -> Result<(PpuState, Seq<u8>), Fault>
        decreases n,
    {
        if n == 0 {
            Ok((self, Seq::<u8>::empty()))
        } else {
            match self.after_reads_data((n - 1) as nat) {
                Ok((s, bytes)) => match s.after_read_data() {
                    Ok((t, v)) => Ok((t, bytes.push(v))),
                    Err(e) => Err(e),
                },
                Err(e) => Err(e),
            }
        }
    }

    /// A write to the control register. Switching the NMI on while the
    /// vertical-blank bit is set raises the NMI at once.
    pub open spec fn after_write_control(self, value: u8) -> PpuState {
        let control = ControlRegister { bits: value };
        PpuState {
            control,
            nmi_interrupt: if !self.control.nmi_enabled() && control.nmi_enabled()
                && self.status.vblank() {
                Some(1u8)
            } else {
                self.nmi_interrupt
            },
            ..self
        }
    }

    /// A read of the status register: the vertical-blank bit drops and
    /// both write latches go back to their first byte.
    pub open spec fn after_read_status(self) -> PpuState {
        PpuState {
            status: self.status.with(StatusRegister::VERTICAL_BLANK, false),
            addr: AddrRegister { value: self.addr.value, hi_ptr: true },
            scroll: ScrollRegister {
                scroll_x: self.scroll.scroll_x,
                scroll_y: self.scroll.scroll_y,
                latch: false,
            },
            ..self
        }
    }

    /// A write to the sprite data port: the byte lands at the sprite
    /// address, which then moves on by one, wrapping at 256.
    pub open spec fn after_write_oam_data(self, value: u8) -> PpuState {
        PpuState {
            oam_data: self.oam_data.update(self.oam_addr as int, value),
            oam_addr: self.oam_addr.wrapping_add(1),
            ..self
        }
    }

    /// A sprite DMA: the bytes of `data` written to the sprite data port
    /// one after the other.
    pub open spec fn after_oam_dma(self, data: Seq<u8>) -> PpuState
        decreases data.len(),
    {
        if data.len() == 0 {
            self
        } else {
            self.after_oam_dma(data.drop_last()).after_write_oam_data(data.last())
        }
    }
}

impl PPU {
    /// The beam is inside the field.
    pub open spec fn wf(&self) -> bool {
        self@.wf()
    }

    /// A unit with 2 KiB of zeroed character memory and horizontal mirroring.
    pub fn new_empty_rom() -> (ppu: Self)
        ensures
            ppu@ == PpuState::initial(Seq::new(2048, |i: int| 0u8), Mirroring::HORIZONTAL),
            ppu.wf(),
    {
        let mut chr_rom: Vec<u8> = Vec::new();
        while chr_rom.len() < 2048
            invariant
                chr_rom.len() <= 2048,
                forall|i: int| 0 <= i < chr_rom.len() ==> chr_rom[i] == 0,
            decreases 2048 - chr_rom.len(),
        {
            chr_rom.push(0);
        }
        assert(chr_rom@ =~= Seq::new(2048, |i: int| 0u8));
        PPU::new(chr_rom, Mirroring::HORIZONTAL)
    }

    pub fn new(chr_rom: Vec<u8>, mirroring: Mirroring) -> (ppu: Self)
        ensures
            ppu@ == PpuState::initial(chr_rom@, mirroring),
            ppu.wf(),
    {
        let ppu = PPU {
            chr_rom,
            palette: [0;32],
            vram: [0;2048],
            oam_data: [0;256],
            oam_addr: 0,
            mirroring,
            internal_data_buffer: 0,
            addr: AddrRegister::new(),
            control: ControlRegister::new(),
            mask: MaskRegister::new(),
            status: StatusRegister::new(),
            scroll: ScrollRegister::new(),
            scanlines: 0,
            cycles: 0,
            nmi_interrupt: None,
        };
        assert(ppu.palette@ =~= Seq::new(32, |i: int| 0u8));
        assert(ppu.vram@ =~= Seq::new(2048, |i: int| 0u8));
        assert(ppu.oam_data@ =~= Seq::new(256, |i: int| 0u8));
        ppu
    }

    /// Moves the beam on by `cycles` dots; `true` exactly when a field ended.
    pub fn tick(&mut self, cycles: u8) -> (frame_done: bool)
        ensures
            final(self)@ == old(self)@.after_tick(cycles).0,
            frame_done == old(self)@.after_tick(cycles).1,
    {
        self.cycles = self.cycles.wrapping_add(cycles as usize);
        if self.cycles >= DOTS_PER_SCANLINE {
            self.cycles = self.cycles - DOTS_PER_SCANLINE;
            self.scanlines = self.scanlines.wrapping_add(1);
            if self.scanlines == VBLANK_SCANLINE {
                self.status.set_vertical_blank(true);
                self.status.set_sprite_0_hit(false);
                if self.control.generate_nmi() {
                    self.nmi_interrupt = Some(1);
                }
            }
            if self.scanlines >= SCANLINES_PER_FRAME {
                self.scanlines = 0;
                self.nmi_interrupt = None;
                self.status.set_sprite_0_hit(false);
                self.status.set_vertical_blank(false);
                return true;
            }
        }
        return false;
    }

    fn increment_vram_addr(&mut self)
        ensures
            final(self)@ == old(self)@.after_step(),
    {
        self.addr.increment(self.control.vram_addr_increment());
    }

    pub fn read_oam_data(&mut self) -> (r: u8)
        ensures
            r == old(self)@.oam_data[old(self).oam_addr as int],
            final(self)@ == old(self)@,
    {
        self.oam_data[self.oam_addr as usize]
    }

    pub fn read_data(&mut self) -> (r: Result<u8, Fault>)
        ensures
            match old(self)@.after_read_data() {
                Ok((s, v)) => r == Ok::<u8, Fault>(v) && final(self)@ == s,
                Err(e) => r == Err::<u8, Fault>(e),
            },
    {
        let addr = self.addr.get();
        self.increment_vram_addr();
        if addr <= 0x1FFF {
            if (addr as usize) < self.chr_rom.len() {
                let result = self.internal_data_buffer;
                self.internal_data_buffer = self.chr_rom[addr as usize];
                Ok(result)
            } else {
                Err(Fault::VideoRead { addr })
            }
        } else if addr <= 0x2FFF {
            let result = self.internal_data_buffer;
            proof {
                lemma_fold(addr);
            }
            let index = self.mirror_vram_addr(addr);
            self.internal_data_buffer = self.vram[index as usize];
            Ok(result)
        } else if 0x3F00 <= addr && addr <= 0x3F1F {
            proof {
                lemma_fold(addr);
            }
            let index = self.mirror_vram_addr(addr);
            self.internal_data_buffer = self.vram[index as usize];
            Ok(self.palette[palette_slot(addr)])
        } else {
            Err(Fault::VideoRead { addr })
        }
    }

    /// Folds a nametable address onto the 2 KiB of video memory.
    pub fn mirror_vram_addr(&self, addr: u16) -> (index: u16)
        requires
            addr & 0x2FFF >= 0x2000,
        ensures
            index == mirrored_index(self.mirroring, addr),
            index < 2048,
    {
        proof {
            lemma_fold(addr);
        }
        let mirrored_vram = addr & 0x2FFF;
        let vram_index = mirrored_vram - 0x2000;
        let name_table = vram_index / 0x400;
        match self.mirroring {
            Mirroring::VERTICAL => if name_table >= 2 {
                vram_index - 0x800
            } else {
                vram_index
            },
            Mirroring::HORIZONTAL => if name_table == 0 {
                vram_index
            } else if name_table == 3 {
                vram_index - 0x800
            } else {
                vram_index - 0x400
            },
        }
    }

    pub fn write_to_ppu_addr(&mut self, value: u8)
        ensures
            final(self)@ == (PpuState { addr: old(self).addr.after_update(value), ..old(self)@ }),
    {
        self.addr.update(value);
    }

    pub fn write_to_control(&mut self, value: u8)
        ensures
            final(self)@ == old(self)@.after_write_control(value),
    {
        let prev_nmi = self.control.generate_nmi();
        self.control.update(value);
        if !prev_nmi && self.control.generate_nmi() && self.status.in_vertical_blank() {
            self.nmi_interrupt = Some(1);
        }
    }

    pub fn write_to_mask(&mut self, value: u8)
        ensures
            final(self)@ == (PpuState { mask: MaskRegister { bits: value }, ..old(self)@ }),
    {
        self.mask.update(value);
    }

    pub fn write_to_scroll(&mut self, value: u8)
        ensures
            final(self)@ == (PpuState {
                scroll: old(self).scroll.after_write(value),
                ..old(self)@
            }),
    {
        self.scroll.write(value);
    }

    pub fn read_status(&mut self) -> (r: u8)
        ensures
            r == old(self).status.bits,
            final(self)@ == old(self)@.after_read_status(),
    {
        let data = self.status.bits();
        self.status.set_vertical_blank(false);
        self.addr.reset_latch();
        self.scroll.reset_latch();
        data
    }

    pub fn write_to_oam_addr(&mut self, value: u8)
        ensures
            final(self)@ == (PpuState { oam_addr: value, ..old(self)@ }),
    {
        self.oam_addr = value;
    }

    pub fn write_to_oam_data(&mut self, value: u8)
        ensures
            final(self)@ == old(self)@.after_write_oam_data(value),
    {
        self.oam_data[self.oam_addr as usize] = value;
        self.oam_addr = self.oam_addr.wrapping_add(1);
    }

    pub fn write_to_data(&mut self, value: u8) -> (r: Result<(), Fault>)
        ensures
            match old(self)@.after_write_data(value) {
                Ok(s) => r == Ok::<(), Fault>(()) && final(self)@ == s,
                Err(e) => r == Err::<(), Fault>(e),
            },
    {
        let addr = self.addr.get();
        self.increment_vram_addr();
        if 0x2000 <= addr && addr <= 0x2FFF {
            proof {
                lemma_fold(addr);
            }
            let index = self.mirror_vram_addr(addr);
            self.vram[index as usize] = value;
            Ok(())
        } else if 0x3F00 <= addr && addr <= 0x3F1F {
            self.palette[palette_slot(addr)] = value;
            Ok(())
        } else {
            Err(Fault::VideoWrite { addr })
        }
    }

    /// Copies `data` into sprite memory, starting at the sprite address
    /// and wrapping at 256.
    pub fn oam_dma(&mut self, data: &[u8])
        ensures
            final(self)@ == old(self)@.after_oam_dma(data@),
    {
        let mut i: usize = 0;
        while i < data.len()
            invariant
                i <= data.len(),
                self@ == old(self)@.after_oam_dma(data@.take(i as int)),
            decreases data.len() - i,
        {
            assert(data@.take(i + 1).drop_last() =~= data@.take(i as int));
            self.oam_data[self.oam_addr as usize] = data[i];
            self.oam_addr = self.oam_addr.wrapping_add(1);
            i += 1;
        }
        assert(data@.take(i as int) =~= data@);
    }
}

/// A tick keeps the beam inside the field: the dot counter below 341 and
/// the scanline counter below 262. Inside the field the counters move by
/// plain addition: the dots by `cycles`, less 341 when a scanline ends.
pub proof fn lemma_tick_keeps_beam(s: PpuState, cycles: u8)
    requires
        s.wf(),
    ensures
        s.after_tick(cycles).0.wf(),
        s.cycles + cycles < DOTS_PER_SCANLINE ==> s.after_tick(cycles).0.cycles == s.cycles + cycles
            && s.after_tick(cycles).0.scanlines == s.scanlines && !s.after_tick(cycles).1,
        s.cycles + cycles >= DOTS_PER_SCANLINE ==> s.after_tick(cycles).0.cycles == s.cycles
            + cycles - DOTS_PER_SCANLINE && s.after_tick(cycles).0.scanlines == (if s.scanlines
            == 261 {
            0
        } else {
            s.scanlines + 1
        }) && s.after_tick(cycles).1 == (s.scanlines == 261),
{
}

/// A nametable address lands in the physical table of its logical table,
/// at the same place inside the table; 0x3000-0x3EFF lands where the
/// address 0x1000 below does.
pub proof fn lemma_mirroring(mirroring: Mirroring, addr: u16)
    requires
        0x2000 <= addr <= 0x3FFF,
    ensures
        0x2000 <= addr <= 0x2FFF ==> mirrored_index(mirroring, addr) == physical_table(
            mirroring,
            (addr - 0x2000) / 0x400,
        ) * 0x400 + (addr - 0x2000) % 0x400,
        0x3000 <= addr ==> mirrored_index(mirroring, addr) == mirrored_index(
            mirroring,
            (addr - 0x1000) as u16,
        ),
        0 <= mirrored_index(mirroring, addr) < 2048,
{
    lemma_fold(addr);
    if addr >= 0x3000 {
        lemma_fold((addr - 0x1000) as u16);
    }
}

/// The palette addresses 0x3F10, 0x3F14, 0x3F18 and 0x3F1C are second
/// names of 0x3F00, 0x3F04, 0x3F08 and 0x3F0C; every other palette address
/// has a slot of its own.
pub proof fn lemma_palette_mirrors()
    ensures
        palette_index(0x3F10) == palette_index(0x3F00),
        palette_index(0x3F14) == palette_index(0x3F04),
        palette_index(0x3F18) == palette_index(0x3F08),
        palette_index(0x3F1C) == palette_index(0x3F0C),
        forall|a: u16| 0x3F00 <= a <= 0x3F1F ==> 0 <= #[trigger] palette_index(a) < 32,
{
}

/// A byte written to the sprite data port is read back from the same
/// sprite address.
pub proof fn lemma_oam_round_trip(p: PpuState, addr: u8, value: u8)
    requires
        p.wf(),
    ensures
        (PpuState { oam_addr: addr, ..p }).after_write_oam_data(value).oam_data[addr as int]
            == value,
{
}

/// A byte written through the data port into a nametable comes back
/// through the data port one read late: with the address pointed at the
/// same place again, the first read returns the stale buffer and the
/// second the byte. The second read has to land below 0x3000 too.
pub proof fn lemma_vram_round_trip(p: PpuState, value: u8)
    requires
        p.wf(),
        0x2000 <= p.addr.value,
        p.addr.value + p.control.increment() <= 0x2FFF,
    ensures
        p.after_write_data(value) matches Ok(written) && (PpuState {
            addr: p.addr,
            ..written
        }).after_read_data() matches Ok((primed, stale)) && primed.after_read_data() matches Ok(
            (_, fresh),
        ) && stale == p.internal_data_buffer && fresh == value,
{
    let addr = p.addr.value;
    let next = p.addr.after_increment(p.control.increment()).value;
    lemma_mirroring(p.mirroring, addr);
    assert(next == addr + p.control.increment()) by {
        let sum: u16 = (addr + p.control.increment()) as u16;
        assert(sum <= 0x2FFF ==> sum & 0x3FFF == sum) by (bit_vector);
    }
    lemma_mirroring(p.mirroring, next);
}

/// The address that the data port points at after `i` accesses.
pub open spec fn stream_address(start: u16, step: u8, i: int) -> int {
    start + i * step
}

/// A run of bytes written through the data port into one nametable comes
/// back through the data port, one read late: with the address pointed at
/// the start again, the first read returns the stale buffer and the reads
/// after it return the bytes in the order written. All addresses written
/// have to lie in one logical nametable, so that no two of them share a
/// cell, and the last read has to land below 0x3000.
pub proof fn lemma_vram_stream_round_trip(p: PpuState, data: Seq<u8>)
    requires
        p.wf(),
        data.len() >= 1,
        0x2000 <= p.addr.value,
        stream_address(p.addr.value, p.control.increment(), data.len() as int) <= 0x2FFF,
        (p.addr.value - 0x2000) / 0x400 == (stream_address(
            p.addr.value,
            p.control.increment(),
            data.len() - 1,
        ) - 0x2000) / 0x400,
    ensures
        p.after_writes_data(data) matches Ok(written) && (PpuState {
            addr: p.addr,
            ..written
        }).after_read_data() matches Ok((primed, stale)) && primed.after_reads_data(
            data.len(),
        ) matches Ok((_, fresh)) && stale == p.internal_data_buffer && fresh == data,
{
    let n = data.len() as int;
    let step = p.control.increment();
    lemma_stream_written(p, data, n);
    assert(data.take(n) =~= data);
    let written = p.after_writes_data(data)->Ok_0;
    let pointed = PpuState { addr: p.addr, ..written };
    lemma_stream_addresses(p.addr.value, step, 0, n);
    lemma_stream_addresses(p.addr.value, step, 1, n);
    lemma_next_address(p.addr, step);
    lemma_mirroring(p.mirroring, p.addr.value);
    let primed = pointed.after_read_data()->Ok_0.0;
    assert(primed.vram == written.vram);
    lemma_stream_read(p, data, primed, n);
    assert(data.take(n) =~= data);
}

/// Inside the nametables the address moves on by plain addition.
proof fn lemma_next_address(addr: AddrRegister, step: u8)
    requires
        addr.value + step <= 0x3FFF,
    ensures
        addr.after_increment(step).value == addr.value + step,
        addr.after_increment(step).hi_ptr == addr.hi_ptr,
{
    let sum: u16 = (addr.value + step) as u16;
    assert(sum <= 0x3FFF ==> sum & 0x3FFF == sum) by (bit_vector);
}

/// The addresses of a stream rise by the step each time.
proof fn lemma_stream_addresses(start: u16, step: u8, i: int, n: int)
    requires
        0 <= i <= n,
        step >= 1,
    ensures
        stream_address(start, step, i) <= stream_address(start, step, n),
        i < n ==> stream_address(start, step, i) < stream_address(start, step, n),
        stream_address(start, step, i + 1) == stream_address(start, step, i) + step,
        stream_address(start, step, 0) == start,
{
    assert(i * step <= n * step) by (nonlinear_arith)
        requires
            0 <= i <= n,
            step >= 1,
    ;
    assert(i < n ==> i * step < n * step) by (nonlinear_arith)
        requires
            0 <= i <= n,
            step >= 1,
    ;
    assert((i + 1) * step == i * step + step) by (nonlinear_arith);
}

/// Two addresses of one logical nametable that differ land in cells that differ.
proof fn lemma_cells_differ(mirroring: Mirroring, a: int, b: int, first: int, last: int)
    requires
        0x2000 <= first <= a < b <= last <= 0x2FFF,
        (first - 0x2000) / 0x400 == (last - 0x2000) / 0x400,
    ensures
        mirrored_index(mirroring, a as u16) != mirrored_index(mirroring, b as u16),
{
    lemma_mirroring(mirroring, a as u16);
    lemma_mirroring(mirroring, b as u16);
}

/// After the first `k` bytes of a stream are written, each of them sits in
/// the cell of its address, the address has moved on `k` times and nothing
/// but video memory and the address has changed.
proof fn lemma_stream_written(p: PpuState, data: Seq<u8>, k: int)
    requires
        p.wf(),
        0 <= k <= data.len(),
        data.len() >= 1,
        0x2000 <= p.addr.value,
        stream_address(p.addr.value, p.control.increment(), data.len() as int) <= 0x2FFF,
        (p.addr.value - 0x2000) / 0x400 == (stream_address(
            p.addr.value,
            p.control.increment(),
            data.len() - 1,
        ) - 0x2000) / 0x400,
    ensures
        p.after_writes_data(data.take(k)) matches Ok(w) && w == (PpuState {
            vram: w.vram,
            addr: w.addr,
            ..p
        }) && w.vram.len() == 2048 && w.addr.hi_ptr == p.addr.hi_ptr && w.addr.value
            == stream_address(p.addr.value, p.control.increment(), k) && (forall|i: int|
            0 <= i < k ==> w.vram[mirrored_index(
                p.mirroring,
                stream_address(p.addr.value, p.control.increment(), i) as u16,
            )] == #[trigger] data[i]),
    decreases k,
{
    let start = p.addr.value;
    let step = p.control.increment();
    let n = data.len() as int;
    lemma_stream_addresses(start, step, 0, n);
    if k > 0 {
        lemma_stream_written(p, data, k - 1);
        assert(data.take(k).drop_last() =~= data.take(k - 1));
        assert(data.take(k).last() == data[k - 1]);
        let before = p.after_writes_data(data.take(k - 1))->Ok_0;
        let here = stream_address(start, step, k - 1);
        lemma_stream_addresses(start, step, k - 1, n);
        lemma_stream_addresses(start, step, 0, k - 1);
        lemma_stream_addresses(start, step, k - 1, n - 1);
        lemma_next_address(before.addr, step);
        lemma_mirroring(p.mirroring, here as u16);
        let after = before.after_write_data(data[k - 1])->Ok_0;
        assert(p.after_writes_data(data.take(k)) == before.after_write_data(data[k - 1]));
        assert forall|i: int| 0 <= i < k implies after.vram[mirrored_index(
            p.mirroring,
            stream_address(start, step, i) as u16,
        )] == #[trigger] data[i] by {
            if i < k - 1 {
                lemma_stream_addresses(start, step, i, k - 1);
                lemma_stream_addresses(start, step, 0, i);
                lemma_cells_differ(
                    p.mirroring,
                    stream_address(start, step, i),
                    here,
                    start as int,
                    stream_address(start, step, n - 1),
                );
                lemma_mirroring(p.mirroring, stream_address(start, step, i) as u16);
            }
        }
    }
}

/// With the buffer primed by a read at the start of a stream, the next
/// `k` reads return the first `k` bytes of the stream.
proof fn lemma_stream_read(p: PpuState, data: Seq<u8>, primed: PpuState, k: int)
    requires
        p.wf(),
        0 <= k <= data.len(),
        data.len() >= 1,
        0x2000 <= p.addr.value,
        stream_address(p.addr.value, p.control.increment(), data.len() as int) <= 0x2FFF,
        primed.wf(),
        primed.mirroring == p.mirroring,
        primed.control == p.control,
        primed.addr.value == stream_address(p.addr.value, p.control.increment(), 1),
        primed.internal_data_buffer == data[0],
        forall|i: int|
            0 <= i < data.len() ==> primed.vram[mirrored_index(
                p.mirroring,
                stream_address(p.addr.value, p.control.increment(), i) as u16,
            )] == #[trigger] data[i],
    ensures
        primed.after_reads_data(k as nat) matches Ok((r, bytes)) && bytes == data.take(k) && r
            == (PpuState { addr: r.addr, internal_data_buffer: r.internal_data_buffer, ..primed })
            && r.addr.value == stream_address(p.addr.value, p.control.increment(), k + 1) && (k
            < data.len() ==> r.internal_data_buffer == data[k]),
    decreases k,
{
    let start = p.addr.value;
    let step = p.control.increment();
    let n = data.len() as int;
    lemma_stream_addresses(start, step, 0, n);
    if k == 0 {
        assert(data.take(0) =~= Seq::<u8>::empty());
    } else {
        lemma_stream_read(p, data, primed, k - 1);
        let (before, bytes) = primed.after_reads_data((k - 1) as nat)->Ok_0;
        lemma_stream_addresses(start, step, k, n);
        lemma_stream_addresses(start, step, 0, k);
        lemma_next_address(before.addr, step);
        lemma_mirroring(p.mirroring, stream_address(start, step, k) as u16);
        assert(bytes.push(data[k - 1]) =~= data.take(k));
        if k < n {
            assert(primed.vram[mirrored_index(
                p.mirroring,
                stream_address(start, step, k) as u16,
            )] == data[k]);
        }
    }
}

/// A sprite DMA of 256 bytes fills all of sprite memory: byte `j` lands
/// `j` places after the sprite address, wrapping at 256, and the sprite
/// address ends where it started. Nothing else changes.
pub proof fn lemma_dma_fills_oam(p: PpuState, data: Seq<u8>)
    requires
        p.wf(),
        data.len() == 256,
    ensures
        p.after_oam_dma(data).oam_addr == p.oam_addr,
        p.after_oam_dma(data).oam_data.len() == 256,
        forall|j: int|
            0 <= j < 256 ==> p.after_oam_dma(data).oam_data[(p.oam_addr + j) % 256] == #[trigger] data[j],
        p.after_oam_dma(data) == (PpuState {
            oam_data: p.after_oam_dma(data).oam_data,
            ..p
        }),
{
    lemma_dma_prefix(p, data, 256);
    assert(data.take(256) =~= data);
}

proof fn lemma_dma_prefix(p: PpuState, data: Seq<u8>, k: int)
    requires
        p.wf(),
        0 <= k <= data.len(),
        k <= 256,
    ensures
        p.after_oam_dma(data.take(k)).oam_addr == (p.oam_addr + k) % 256,
        p.after_oam_dma(data.take(k)).oam_data.len() == 256,
        forall|j: int|
            0 <= j < k ==> p.after_oam_dma(data.take(k)).oam_data[(p.oam_addr + j) % 256]
                == #[trigger] data[j],
        p.after_oam_dma(data.take(k)) == (PpuState {
            oam_data: p.after_oam_dma(data.take(k)).oam_data,
            oam_addr: p.after_oam_dma(data.take(k)).oam_addr,
            ..p
        }),
    decreases k,
{
    if k > 0 {
        lemma_dma_prefix(p, data, k - 1);
        assert(data.take(k).drop_last() =~= data.take(k - 1));
        assert(data.take(k).last() == data[k - 1]);
        let before = p.after_oam_dma(data.take(k - 1));
        let after = p.after_oam_dma(data.take(k));
        assert(after == before.after_write_oam_data(data[k - 1]));
        let slot = before.oam_addr as int;
        lemma_wrapped_slots(p.oam_addr as int, k - 1, k - 1);
        assert(after.oam_data == before.oam_data.update(slot, data[k - 1]));
        assert forall|j: int| 0 <= j < k implies after.oam_data[(p.oam_addr + j) % 256]
            == #[trigger] data[j] by {
            lemma_wrapped_slots(p.oam_addr as int, j, k - 1);
            if j < k - 1 {
                assert(before.oam_data[(p.oam_addr + j) % 256] == data[j]);
            }
        }
    }
}

/// Places counted on from a sprite address stay inside sprite memory, and
/// fewer than 256 places apart they differ.
proof fn lemma_wrapped_slots(start: int, j: int, k: int)
    requires
        0 <= start < 256,
        0 <= j <= k < 256,
    ensures
        0 <= (start + j) % 256 < 256,
        j < k ==> (start + j) % 256 != (start + k) % 256,
        ((start + k) % 256 + 1) % 256 == (start + k + 1) % 256,
{
}

/// The slot of palette memory behind a palette address.
fn palette_slot(addr: u16) -> (slot: usize)
    requires
        0x3F00 <= addr <= 0x3F1F,
    ensures
        slot == palette_index(addr),
        slot < 32,
{
    let i = addr - 0x3F00;
    if i == 0x10 || i == 0x14 || i == 0x18 || i == 0x1C {
        (i - 0x10) as usize
    } else {
        i as usize
    }
}

/// Folding an address into 0x2000-0x2FFF leaves an address below 0x3000
/// as it is and takes 0x1000 off one from 0x3000 on.
pub proof fn lemma_fold(addr: u16)
    by (bit_vector)
    ensures
        addr & 0x2FFF <= 0x2FFF,
        0x2000 <= addr <= 0x2FFF ==> addr & 0x2FFF == addr,
        0x3000 <= addr <= 0x3FFF ==> addr & 0x2FFF == addr - 0x1000,
{
}

} // verus!
