use vstd::prelude::*;

verus! {

pub const ROM_SIZE: usize = 16384;
pub const RAM_SIZE: usize = 8192;
pub const OAM_SIZE: usize = 160;
pub const IO_SIZE: usize = 128;
pub const HRAM_SIZE: usize = 128;

/// The 64 KiB address space: cartridge ROM, the RAM regions and the
/// memory-mapped I/O registers.
pub struct Mem {
    pub rom: Vec<u8>,
    pub rom_bank: Vec<u8>,
    pub vram: Vec<u8>,
    pub exram: Vec<u8>,
    pub wram: Vec<u8>,
    pub sdata: Vec<u8>,
    pub io: Vec<u8>,
    pub zero_pg: Vec<u8>,
    /// Set by a write to the joypad register: the input latch must refresh it.
    pub input_update: bool,
}

/// The contents of every region, as sequences of bytes.
#[verifier::ext_equal]
pub struct MemView {
    pub rom: Seq<u8>,
    pub rom_bank: Seq<u8>,
    pub vram: Seq<u8>,
    pub exram: Seq<u8>,
    pub wram: Seq<u8>,
    pub oam: Seq<u8>,
    pub io: Seq<u8>,
    pub hram: Seq<u8>,
    pub input_update: bool,
}

impl View for Mem {
    type V = MemView;

    open spec fn view(&self) -> MemView {
        MemView {
            rom: self.rom@,
            rom_bank: self.rom_bank@,
            vram: self.vram@,
            exram: self.exram@,
            wram: self.wram@,
            oam: self.sdata@,
            io: self.io@,
            hram: self.zero_pg@,
            input_update: self.input_update,
        }
    }
}

impl MemView {
    pub open spec fn wf(self) -> bool {
        &&& self.rom.len() == ROM_SIZE
        &&& self.rom_bank.len() == ROM_SIZE
        &&& self.vram.len() == RAM_SIZE
        &&& self.exram.len() == RAM_SIZE
        &&& self.wram.len() == RAM_SIZE
        &&& self.oam.len() == OAM_SIZE
        &&& self.io.len() == IO_SIZE
        &&& self.hram.len() == HRAM_SIZE
    }

    /// The byte that a read of address `a` returns.
    pub open spec fn read(self, a: u16) -> u8 {
        if a <= 0x3FFF {
            self.rom[a as int]
        } else if a <= 0x7FFF {
            self.rom_bank[a - 0x4000]
        } else if a <= 0x9FFF {
            self.vram[a - 0x8000]
        } else if a <= 0xBFFF {
            self.exram[a - 0xA000]
        } else if a <= 0xDFFF {
            self.wram[a - 0xC000]
        } else if a <= 0xFDFF {
            // echo of work RAM
            self.wram[a - 0xE000]
        } else if a <= 0xFE9F {
            self.oam[a - 0xFE00]
        } else if a <= 0xFEFF {
            0
        } else if a <= 0xFF7F {
            self.io[a - 0xFF00]
        } else {
            self.hram[a - 0xFF80]
        }
    }

    /// Little-endian 16-bit value at `a` and `a + 1` (wrapping).
    pub open spec fn read16(self, a: u16) -> u16 {
        (self.read(a) as int + 256 * self.read(((a + 1) % 0x10000) as u16)) as u16
    }

    /// OAM after a DMA transfer from page `page`.
    pub open spec fn dma_oam(self, page: u8) -> Seq<u8> {
        Seq::new(OAM_SIZE as nat, |i: int| self.read((page as int * 256 + i) as u16))
    }

    /// The state after writing `v` to address `a`, with its side effects.
    pub open spec fn write(self, a: u16, v: u8) -> MemView {
        if a <= 0x7FFF {
            self
        } else if a <= 0x9FFF {
            MemView { vram: self.vram.update(a - 0x8000, v), ..self }
        } else if a <= 0xBFFF {
            MemView { exram: self.exram.update(a - 0xA000, v), ..self }
        } else if a <= 0xDFFF {
            MemView { wram: self.wram.update(a - 0xC000, v), ..self }
        } else if a <= 0xFDFF {
            MemView { wram: self.wram.update(a - 0xE000, v), ..self }
        } else if a <= 0xFE9F {
            MemView { oam: self.oam.update(a - 0xFE00, v), ..self }
        } else if a <= 0xFEFF {
            self
        } else if a == 0xFF00 {
            MemView { io: self.io.update(0, v), input_update: true, ..self }
        } else if a == 0xFF04 {
            MemView { io: self.io.update(4, 0), ..self }
        } else if a == 0xFF07 {
            MemView { io: self.io.update(7, v % 8), ..self }
        } else if a == 0xFF46 {
            let m = MemView { io: self.io.update(0x46, v), ..self };
            MemView { oam: m.dma_oam(v), ..m }
        } else if a <= 0xFF7F {
            MemView { io: self.io.update(a - 0xFF00, v), ..self }
        } else {
            MemView { hram: self.hram.update(a - 0xFF80, v), ..self }
        }
    }

    /// The I/O registers as the boot ROM leaves them.
    pub open spec fn boot_io(i: int) -> u8 {
        if i == 0x10 { 0x80 }
        else if i == 0x11 { 0xBF }
        else if i == 0x12 { 0xF3 }
        else if i == 0x14 { 0xBF }
        else if i == 0x16 { 0x3F }
        else if i == 0x19 { 0xBF }
        else if i == 0x1A { 0x7F }
        else if i == 0x1B { 0xFF }
        else if i == 0x1C { 0x9F }
        else if i == 0x1E { 0xBF }
        else if i == 0x20 { 0xFF }
        else if i == 0x23 { 0xBF }
        else if i == 0x24 { 0x77 }
        else if i == 0x25 { 0xF3 }
        else if i == 0x26 { 0xF1 }
        else if i == 0x40 { 0x91 }
        else if i == 0x47 { 0xFC }
        else if i == 0x48 { 0xFF }
        else if i == 0x49 { 0xFF }
        else { 0 }
    }
}

pub(crate) fn zeroed(n: usize) -> (r: Vec<u8>)
    ensures
        r@ == Seq::new(n as nat, |i: int| 0u8),
{
    let mut r: Vec<u8> = Vec::new();
    let mut i: usize = 0;
    while i < n
        invariant
            i <= n,
            r@ == Seq::new(i as nat, |j: int| 0u8),
        decreases n - i,
    {
        r.push(0);
        i = i + 1;
        assert(r@ =~= Seq::new(i as nat, |j: int| 0u8));
    }
    r
}

impl Mem {
    pub open spec fn wf(&self) -> bool {
        self@.wf()
    }

    /// Reads one byte of the address space.
    pub fn read(&self, address: u16) -> (r: u8)
        requires
            self.wf(),
        ensures
            r == self@.read(address),
    {
        let addr = address as usize;
        if addr <= 0x3FFF {
            self.rom[addr]
        } else if addr <= 0x7FFF {
            self.rom_bank[addr - 0x4000]
        } else if addr <= 0x9FFF {
            self.vram[addr - 0x8000]
        } else if addr <= 0xBFFF {
            self.exram[addr - 0xA000]
        } else if addr <= 0xDFFF {
            self.wram[addr - 0xC000]
        } else if addr <= 0xFDFF {
            self.wram[addr - 0xE000]
        } else if addr <= 0xFE9F {
            self.sdata[addr - 0xFE00]
        } else if addr <= 0xFEFF {
            0
        } else if addr <= 0xFF7F {
            self.io[addr - 0xFF00]
        } else {
            self.zero_pg[addr - 0xFF80]
        }
    }

    /// Copies 160 bytes from page `page` into OAM.
    fn dma(&mut self, page: u8)
        requires
            old(self).wf(),
        ensures
            final(self)@ == (MemView { oam: old(self)@.dma_oam(page), ..old(self)@ }),
    {
        let ghost m = self@;
        let base: u16 = (page as u16) * 256;
        let mut i: usize = 0;
        while i < OAM_SIZE
            invariant
                self.wf(),
                i <= OAM_SIZE,
                base == page as int * 256,
                self@ == (MemView { oam: self@.oam, ..m }),
                forall|j: int| 0 <= j < i ==> self@.oam[j] == m.dma_oam(page)[j],
                forall|j: int| i <= j < OAM_SIZE ==> self@.oam[j] == m.oam[j],
            decreases OAM_SIZE - i,
        {
            let a: u16 = base + i as u16;
            let b = self.read(a);
            assert(b == m.read(a));
            self.sdata[i] = b;
            i = i + 1;
        }
        assert(self@.oam =~= m.dma_oam(page));
    }

    /// Writes one byte of the address space, with the side effects of the
    /// I/O registers.
    pub fn write(&mut self, address: u16, val: u8)
        requires
            old(self).wf(),
        ensures
            final(self).wf(),
            final(self)@ == old(self)@.write(address, val),
    {
        let addr = address as usize;
        if addr <= 0x7FFF {
        } else if addr <= 0x9FFF {
            self.vram[addr - 0x8000] = val;
        } else if addr <= 0xBFFF {
            self.exram[addr - 0xA000] = val;
        } else if addr <= 0xDFFF {
            self.wram[addr - 0xC000] = val;
        } else if addr <= 0xFDFF {
            self.wram[addr - 0xE000] = val;
        } else if addr <= 0xFE9F {
            self.sdata[addr - 0xFE00] = val;
        } else if addr <= 0xFEFF {
        } else if addr == 0xFF00 {
            self.io[0] = val;
            self.input_update = true;
        } else if addr == 0xFF04 {
            self.io[4] = 0;
        } else if addr == 0xFF07 {
            self.io[7] = val % 8;
        } else if addr == 0xFF46 {
            self.io[0x46] = val;
            self.dma(val);
        } else if addr <= 0xFF7F {
            self.io[addr - 0xFF00] = val;
        } else {
            self.zero_pg[addr - 0xFF80] = val;
        }
        assert(self@ =~= old(self)@.write(address, val));
    }

    /// The memory as the boot ROM leaves it, with empty cartridge banks.
    pub fn new() -> (r: Mem)
        ensures
            r.wf(),
            r@.rom == Seq::new(ROM_SIZE as nat, |i: int| 0u8),
            r@.rom_bank == Seq::new(ROM_SIZE as nat, |i: int| 0u8),
            r@.vram == Seq::new(RAM_SIZE as nat, |i: int| 0u8),
            r@.exram == Seq::new(RAM_SIZE as nat, |i: int| 0u8),
            r@.wram == Seq::new(RAM_SIZE as nat, |i: int| 0u8),
            r@.oam == Seq::new(OAM_SIZE as nat, |i: int| 0u8),
            r@.hram == Seq::new(HRAM_SIZE as nat, |i: int| 0u8),
            r@.io == Seq::new(IO_SIZE as nat, |i: int| MemView::boot_io(i)),
            !r@.input_update,
    {
        let mut m = Mem {
            rom: zeroed(ROM_SIZE),
            rom_bank: zeroed(ROM_SIZE),
            vram: zeroed(RAM_SIZE),
            exram: zeroed(RAM_SIZE),
            wram: zeroed(RAM_SIZE),
            sdata: zeroed(OAM_SIZE),
            io: zeroed(IO_SIZE),
            zero_pg: zeroed(HRAM_SIZE),
            input_update: false,
        };
        m.io[0x10] = 0x80;
        m.io[0x11] = 0xBF;
        m.io[0x12] = 0xF3;
        m.io[0x14] = 0xBF;
        m.io[0x16] = 0x3F;
        m.io[0x19] = 0xBF;
        m.io[0x1A] = 0x7F;
        m.io[0x1B] = 0xFF;
        m.io[0x1C] = 0x9F;
        m.io[0x1E] = 0xBF;
        m.io[0x20] = 0xFF;
        m.io[0x23] = 0xBF;
        m.io[0x24] = 0x77;
        m.io[0x25] = 0xF3;
        m.io[0x26] = 0xF1;
        m.io[0x40] = 0x91;
        m.io[0x47] = 0xFC;
        m.io[0x48] = 0xFF;
        m.io[0x49] = 0xFF;
        assert(m@.io =~= Seq::new(IO_SIZE as nat, |i: int| MemView::boot_io(i)));
        m
    }
}

impl Default for Mem {
    /// The memory as the boot ROM leaves it, with empty cartridge banks.
    fn default() -> (r: Mem)
        ensures
            r.wf(),
            r@.rom == Seq::new(ROM_SIZE as nat, |i: int| 0u8),
            r@.rom_bank == Seq::new(ROM_SIZE as nat, |i: int| 0u8),
            r@.vram == Seq::new(RAM_SIZE as nat, |i: int| 0u8),
            r@.exram == Seq::new(RAM_SIZE as nat, |i: int| 0u8),
            r@.wram == Seq::new(RAM_SIZE as nat, |i: int| 0u8),
            r@.oam == Seq::new(OAM_SIZE as nat, |i: int| 0u8),
            r@.hram == Seq::new(HRAM_SIZE as nat, |i: int| 0u8),
            r@.io == Seq::new(IO_SIZE as nat, |i: int| MemView::boot_io(i)),
            !r@.input_update,
    {
        Mem::new()
    }
}

} // verus!
