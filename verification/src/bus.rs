//! The memory bus: decodes every CPU address to internal RAM, the video
//! registers, the controller port or cartridge program ROM, and carries the
//! clock to the picture processing unit.

use vstd::prelude::*;
use crate::cartridge::Rom;
use crate::cpu::Memory;
use crate::fault::{Fault, agrees, agrees_unit};
use crate::joypad::Joypad;
use crate::ppu::ppu::{PPU, PpuState};
use crate::ppu::registers::address::{word, lemma_address_is_last_pair};

verus! {

#[derive(Clone)]
pub struct Bus {
    pub cpu_vram: [u8; 2048],
    pub prg_rom: Vec<u8>,
    pub ppu: PPU,
    pub joypad: Joypad,
    pub cycles: usize,
}

/// The bus as a mathematical value.
pub struct BusState {
    pub ram: Seq<u8>,
    pub prg_rom: Seq<u8>,
    pub ppu: PpuState,
    pub joypad: Joypad,
    pub cycles: usize,
}

impl View for Bus {
    type V = BusState;

    open spec fn view(&self) -> BusState {
        BusState {
            ram: self.cpu_vram@,
            prg_rom: self.prg_rom@,
            ppu: self.ppu@,
            joypad: self.joypad,
            cycles: self.cycles,
        }
    }
}

/// The part of the address space behind which there is nothing: above
/// the input/output registers and below the cartridge. Data reads there
/// return 0 and writes are dropped, but a program cannot run there.
pub open spec fn unmapped(addr: u16) -> bool {
    0x4018 <= addr < 0x8000
}

/// Where in the program ROM image a CPU address at or above 0x8000 lands.
/// A 16 KiB image shows twice.
pub open spec fn prg_index(len: nat, addr: u16) -> int {
    let offset = addr - 0x8000;
    if len == 0x4000 && offset >= 0x4000 {
        offset % 0x4000
    } else {
        offset
    }
}

impl BusState {
    pub open spec fn wf(self) -> bool {
        self.ram.len() == 2048 && self.ppu.wf()
    }

    /// The bus right after power-on with this cartridge.
    pub open spec fn initial(rom: Rom) -> BusState {
        BusState {
            ram: Seq::new(2048, |i: int| 0u8),
            prg_rom: rom.prg_rom@,
            ppu: PpuState::initial(rom.chr_rom@, rom.screen_mirroring),
            joypad: Joypad { strobe: false, button_index: 0, button_status: 0 },
            cycles: 0,
        }
    }

    /// A CPU read.
    ///
    /// | range | what answers |
    /// |---|---|
    /// | 0x0000-0x1FFF | internal RAM, repeating every 0x0800 |
    /// | 0x2000-0x3FFF | the video registers, repeating every 8: status, sprite data and video data answer, the others read 0 |
    /// | 0x4016 | the controller |
    /// | rest below 0x8000 | 0 |
    /// | 0x8000-0xFFFF | program ROM |
    #[verifier::opaque]
    pub open spec fn read(self, addr: u16) -> Result<(BusState, u8), Fault> {
        if addr <= 0x1FFF {
            Ok((self, self.ram[(addr & 0x07FF) as int]))
        } else if addr <= 0x3FFF {
            let reg = addr & 0x2007;
            if reg == 0x2002 {
                Ok((BusState { ppu: self.ppu.after_read_status(), ..self }, self.ppu.status.bits))
            } else if reg == 0x2004 {
                Ok((self, self.ppu.oam_data[self.ppu.oam_addr as int]))
            } else if reg == 0x2007 {
                match self.ppu.after_read_data() {
                    Ok((ppu, v)) => Ok((BusState { ppu, ..self }, v)),
                    Err(e) => Err(e),
                }
            } else {
                Ok((self, 0u8))
            }
        } else if addr == 0x4016 {
            Ok((BusState { joypad: self.joypad.after_read(), ..self }, self.joypad.read_value()))
        } else if addr < 0x8000 {
            Ok((self, 0u8))
        } else {
            let i = prg_index(self.prg_rom.len(), addr);
            if i < self.prg_rom.len() {
                Ok((self, self.prg_rom[i]))
            } else {
                Err(Fault::ProgramRomRead { addr })
            }
        }
    }

    /// A little-endian 16-bit read: low byte first.
    pub open spec fn read_u16(self, pos: u16) -> Result<(BusState, u16), Fault> {
        match self.read(pos) {
            Err(e) => Err(e),
            Ok((s, lo)) => match s.read(pos.wrapping_add(1)) {
                Err(e) => Err(e),
                Ok((t, hi)) => Ok((t, word(hi, lo))),
            },
        }
    }

    /// The first `n` bytes of a page as a sprite DMA reads them: one bus
    /// read after the other, lowest address first.
    pub open spec fn collect(self, page: u8, n: nat) -> Result<(BusState, Seq<u8>), Fault>
        decreases n,
    {
        if n == 0 {
            Ok((self, Seq::<u8>::empty()))
        } else {
            match self.collect(page, (n - 1) as nat) {
                Err(e) => Err(e),
                Ok((s, bytes)) => match s.read(word(page, (n - 1) as u8)) {
                    Err(e) => Err(e),
                    Ok((t, v)) => Ok((t, bytes.push(v))),
                },
            }
        }
    }

    /// A CPU write.
    ///
    /// | range | what takes it |
    /// |---|---|
    /// | 0x0000-0x1FFF | internal RAM, repeating every 0x0800 |
    /// | 0x2000-0x3FFF | the video registers, repeating every 8; the status register ignores it |
    /// | 0x4014 | sprite DMA from page `data` |
    /// | 0x4016 | the controller |
    /// | rest below 0x8000 | nothing |
    /// | 0x8000-0xFFFF | a fault: program ROM cannot be written |
    #[verifier::opaque]
    pub open spec fn write(self, addr: u16, data: u8) -> Result<BusState, Fault> {
        if addr <= 0x1FFF {
            Ok(BusState { ram: self.ram.update((addr & 0x07FF) as int, data), ..self })
        } else if addr <= 0x3FFF {
            let reg = addr & 0x2007;
            if reg == 0x2000 {
                Ok(BusState { ppu: self.ppu.after_write_control(data), ..self })
            } else if reg == 0x2001 {
                Ok(
                    BusState {
                        ppu: PpuState {
                            mask: crate::ppu::registers::mask::MaskRegister { bits: data },
                            ..self.ppu
                        },
                        ..self
                    },
                )
            } else if reg == 0x2002 {
                Ok(self)
            } else if reg == 0x2003 {
                Ok(BusState { ppu: PpuState { oam_addr: data, ..self.ppu }, ..self })
            } else if reg == 0x2004 {
                Ok(BusState { ppu: self.ppu.after_write_oam_data(data), ..self })
            } else if reg == 0x2005 {
                Ok(
                    BusState {
                        ppu: PpuState { scroll: self.ppu.scroll.after_write(data), ..self.ppu },
                        ..self
                    },
                )
            } else if reg == 0x2006 {
                Ok(
                    BusState {
                        ppu: PpuState { addr: self.ppu.addr.after_update(data), ..self.ppu },
                        ..self
                    },
                )
            } else {
                match self.ppu.after_write_data(data) {
                    Ok(ppu) => Ok(BusState { ppu, ..self }),
                    Err(e) => Err(e),
                }
            }
        } else if addr == 0x4014 {
            match self.collect(data, 256) {
                Ok((s, bytes)) => Ok(BusState { ppu: s.ppu.after_oam_dma(bytes), ..s }),
                Err(e) => Err(e),
            }
        } else if addr == 0x4016 {
            Ok(BusState { joypad: self.joypad.after_write(data), ..self })
        } else if addr < 0x8000 {
            Ok(self)
        } else {
            Err(Fault::ProgramRomWrite { addr })
        }
    }

    /// A run of writes to one address, first byte first.
    pub open spec fn after_writes(self, addr: u16, data: Seq<u8>) -> Result<BusState, Fault>
        decreases data.len(),
    {
        if data.len() == 0 {
            Ok(self)
        } else {
            match self.after_writes(addr, data.drop_last()) {
                Ok(s) => s.write(addr, data.last()),
                Err(e) => Err(e),
            }
        }
    }

    /// A little-endian 16-bit write: low byte first.
    pub open spec fn write_u16(self, pos: u16, data: u16) -> Result<BusState, Fault> {
        match self.write(pos, (data & 0xFF) as u8) {
            Err(e) => Err(e),
            Ok(s) => s.write(pos.wrapping_add(1), (data >> 8) as u8),
        }
    }

    /// The bus after `cycles` CPU cycles, and whether a field ended: the
    /// cycle counter moves on, wrapping at the machine word, and the
    /// picture processing unit runs three dots per cycle.
    pub open spec fn after_tick(self, cycles: u8) -> (BusState, bool) {
        let (ppu, frame_done) = self.ppu.after_tick((cycles * 3) as u8);
        (BusState { cycles: self.cycles.wrapping_add(cycles as usize), ppu, ..self }, frame_done)
    }

    /// The bus after the CPU took the pending NMI, if any.
    pub open spec fn after_poll(self) -> BusState {
        BusState { ppu: PpuState { nmi_interrupt: None, ..self.ppu }, ..self }
    }
}

impl Bus {
    pub open spec fn wf(&self) -> bool {
        self@.wf()
    }

    pub fn new(rom: Rom) -> (bus: Bus)
        ensures
            bus@ == BusState::initial(rom),
            bus.wf(),
    {
        let ppu = PPU::new(rom.chr_rom, rom.screen_mirroring);
        let joypad = Joypad::new();
        let bus = Bus { cpu_vram: [0;2048], prg_rom: rom.prg_rom, ppu, joypad, cycles: 0 };
        assert(bus.cpu_vram@ =~= Seq::new(2048, |i: int| 0u8));
        bus
    }

    fn read_prg_rom(&self, addr: u16) -> (r: Result<u8, Fault>)
        requires
            addr >= 0x8000,
        ensures
            agrees(self@.read(addr), self@, r),
    {
        proof {
            reveal(BusState::read);
        }
        let mut offset: u16 = addr - 0x8000;
        if self.prg_rom.len() == 0x4000 && offset >= 0x4000 {
            offset = offset % 0x4000;
        }
        if (offset as usize) < self.prg_rom.len() {
            Ok(self.prg_rom[offset as usize])
        } else {
            Err(Fault::ProgramRomRead { addr })
        }
    }

    /// Takes the pending NMI, if there is one.
    pub fn poll_nmi_status(&mut self) -> (r: Option<u8>)
        ensures
            r == old(self).ppu.nmi_interrupt,
            final(self)@ == old(self)@.after_poll(),
    {
        let pending = self.ppu.nmi_interrupt;
        self.ppu.nmi_interrupt = None;
        pending
    }

    /// Charges `cycles` CPU cycles; `true` exactly when a field ended and
    /// the host is due a frame.
    pub fn tick(&mut self, cycles: u8) -> (frame_done: bool)
        requires
            cycles <= 85,
        ensures
            final(self)@ == old(self)@.after_tick(cycles).0,
            frame_done == old(self)@.after_tick(cycles).1,
    {
        self.cycles = self.cycles.wrapping_add(cycles as usize);
        let new_frame = self.ppu.tick(cycles * 3);
        new_frame
    }

    /// Reads the 256 bytes of a page for a sprite DMA.
    fn read_page(&mut self, page: u8) -> (r: Result<Vec<u8>, Fault>)
        ensures
            match old(self)@.collect(page, 256) {
                Ok((s, bytes)) => r is Ok && r->Ok_0@ == bytes && final(self)@ == s,
                Err(e) => r == Err::<Vec<u8>, Fault>(e),
            },
    {
        let mut bytes: Vec<u8> = Vec::new();
        let mut i: u16 = 0;
        while i < 256
            invariant
                i <= 256,
                old(self)@.collect(page, i as nat) == Ok::<(BusState, Seq<u8>), Fault>(
                    (self@, bytes@),
                ),
            decreases 256 - i,
        {
            let ghost before = self@;
            let addr: u16 = ((page as u16) << 8) | ((i as u8) as u16);
            match self.mem_read(addr) {
                Ok(v) => {
                    bytes.push(v);
                },
                Err(e) => {
                    proof {
                        lemma_collect_fault(old(self)@, page, (i + 1) as nat, 256);
                    }
                    return Err(e);
                },
            }
            i += 1;
        }
        Ok(bytes)
    }
}

impl Memory for Bus {
    open spec fn bus_state(&self) -> BusState {
        self@
    }

    fn mem_read(&mut self, addr: u16) -> (r: Result<u8, Fault>) {
        proof {
            reveal(BusState::read);
        }
        if addr <= 0x1FFF {
            assert(addr & 0x07FF < 2048) by (bit_vector);
            Ok(self.cpu_vram[(addr & 0x07FF) as usize])
        } else if addr <= 0x3FFF {
            let reg = addr & 0x2007;
            if reg == 0x2002 {
                Ok(self.ppu.read_status())
            } else if reg == 0x2004 {
                Ok(self.ppu.read_oam_data())
            } else if reg == 0x2007 {
                self.ppu.read_data()
            } else {
                Ok(0)
            }
        } else if addr == 0x4016 {
            Ok(self.joypad.read())
        } else if addr < 0x8000 {
            Ok(0)
        } else {
            self.read_prg_rom(addr)
        }
    }

    fn mem_write(&mut self, addr: u16, data: u8) -> (r: Result<(), Fault>) {
        proof {
            reveal(BusState::write);
        }
        if addr <= 0x1FFF {
            assert(addr & 0x07FF < 2048) by (bit_vector);
            self.cpu_vram[(addr & 0x07FF) as usize] = data;
            Ok(())
        } else if addr <= 0x3FFF {
            let reg = addr & 0x2007;
            if reg == 0x2000 {
                self.ppu.write_to_control(data);
                Ok(())
            } else if reg == 0x2001 {
                self.ppu.write_to_mask(data);
                Ok(())
            } else if reg == 0x2002 {
                Ok(())
            } else if reg == 0x2003 {
                self.ppu.write_to_oam_addr(data);
                Ok(())
            } else if reg == 0x2004 {
                self.ppu.write_to_oam_data(data);
                Ok(())
            } else if reg == 0x2005 {
                self.ppu.write_to_scroll(data);
                Ok(())
            } else if reg == 0x2006 {
                self.ppu.write_to_ppu_addr(data);
                Ok(())
            } else {
                self.ppu.write_to_data(data)
            }
        } else if addr == 0x4014 {
            let bytes = self.read_page(data)?;
            self.ppu.oam_dma(bytes.as_slice());
            Ok(())
        } else if addr == 0x4016 {
            self.joypad.write(data);
            Ok(())
        } else if addr < 0x8000 {
            Ok(())
        } else {
            Err(Fault::ProgramRomWrite { addr })
        }
    }
}

/// The video register that answers at each of the eight port addresses.
proof fn lemma_ports()
    by (bit_vector)
    ensures
        0x2000u16 & 0x2007 == 0x2000,
        0x2001u16 & 0x2007 == 0x2001,
        0x2002u16 & 0x2007 == 0x2002,
        0x2003u16 & 0x2007 == 0x2003,
        0x2004u16 & 0x2007 == 0x2004,
        0x2005u16 & 0x2007 == 0x2005,
        0x2006u16 & 0x2007 == 0x2006,
        0x2007u16 & 0x2007 == 0x2007,
{
}

/// A run of writes to the address port (0x2006) is a run of writes to the
/// address register: nothing else on the bus changes, and no write faults.
pub proof fn lemma_address_port(s: BusState, data: Seq<u8>)
    ensures
        s.after_writes(0x2006, data) == Ok::<BusState, Fault>(
            BusState { ppu: PpuState { addr: s.ppu.addr.after_updates(data), ..s.ppu }, ..s },
        ),
    decreases data.len(),
{
    reveal(BusState::write);
    lemma_ports();
    if data.len() > 0 {
        lemma_address_port(s, data.drop_last());
    }
}

/// After any even, non-empty run of writes to 0x2006 that starts with
/// the latch on the high byte, the VRAM address is the last two bytes
/// written, joined and cut to 14 bits.
pub proof fn lemma_vram_address_is_last_pair(s: BusState, data: Seq<u8>)
    requires
        s.ppu.addr.hi_ptr,
        data.len() >= 2,
        data.len() % 2 == 0,
    ensures
        s.after_writes(0x2006, data) matches Ok(t) && t.ppu.addr.value == word(
            data[data.len() - 2],
            data[data.len() - 1],
        ) & 0x3FFF,
{
    lemma_address_port(s, data);
    lemma_address_is_last_pair(s.ppu.addr, data);
}

/// A read of the status port (0x2002) returns the status byte, drops the
/// vertical-blank bit and puts both write latches back on their first byte.
pub proof fn lemma_status_read_resets_latches(s: BusState)
    ensures
        s.read(0x2002) matches Ok((t, v)) && v == s.ppu.status.bits && t.ppu.addr.hi_ptr
            && !t.ppu.scroll.latch && !t.ppu.status.vblank() && t.ppu.addr.value
            == s.ppu.addr.value,
{
    reveal(BusState::read);
    lemma_ports();
    crate::flags::lemma_assigned(s.ppu.status.bits, 0x80, 0);
}

/// A byte written to the sprite data port (0x2004) after the sprite
/// address `addr` was written to 0x2003 is read back from 0x2004 once the
/// sprite address points at `addr` again.
pub proof fn lemma_oam_ports_round_trip(s: BusState, addr: u8, value: u8)
    requires
        s.wf(),
    ensures
        s.write(0x2003, addr) matches Ok(s1) && s1.write(0x2004, value) matches Ok(s2) && s2.write(
            0x2003,
            addr,
        ) matches Ok(s3) && s3.read(0x2004) matches Ok((_, v)) && v == value,
{
    reveal(BusState::read);
    reveal(BusState::write);
    lemma_ports();
}

/// Every write at or above 0x8000 faults, whatever the state of the bus.
pub proof fn lemma_rom_refuses_writes(s: BusState, addr: u16, data: u8)
    requires
        addr >= 0x8000,
    ensures
        s.write(addr, data) == Err::<BusState, Fault>(Fault::ProgramRomWrite { addr }),
{
    reveal(BusState::write);
}

/// A fault during a sprite DMA read ends the DMA: reading further bytes
/// gives the same fault.
pub proof fn lemma_collect_fault(s: BusState, page: u8, k: nat, n: nat)
    requires
        k <= n,
        s.collect(page, k) is Err,
    ensures
        s.collect(page, n) == s.collect(page, k),
    decreases n,
{
    if k < n {
        lemma_collect_fault(s, page, k, (n - 1) as nat);
    }
}

} // verus!
