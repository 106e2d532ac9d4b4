use vstd::prelude::*;

use crate::cpu::arith::{lemma_join_word, lemma_split_word, word, wrap16};

verus! {

pub const RAM_START: u16 = 0x0000;

pub const RAM_END: u16 = 0x1FFF;

pub const PPU_START: u16 = 0x2000;

pub const PPU_END: u16 = 0x3FFF;

/// Size of the CPU's work RAM; the RAM range repeats it.
pub const VRAM_SIZE: usize = 2048;

/// The system bus: 2 KiB of work RAM mirrored over `0x0000..=0x1FFF`, the PPU
/// registers at `0x2000..=0x3FFF`, and nothing else yet.
#[derive(Debug)]
pub struct Bus {
    cpu_vram: [u8; 2048],
}

/// Addresses that reach the work RAM.
pub open spec fn is_ram(addr: u16) -> bool {
    RAM_START <= addr && addr <= RAM_END
}

/// Addresses of the PPU registers, which the bus does not serve yet.
pub open spec fn is_ppu(addr: u16) -> bool {
    PPU_START <= addr && addr <= PPU_END
}

/// The RAM cell that a RAM address reaches.
pub open spec fn mirror(addr: u16) -> int {
    addr as int % 2048
}

/// What a read of `addr` gives on a bus whose RAM holds `vram`.
pub open spec fn bus_value(vram: Seq<u8>, addr: u16) -> u8 {
    if is_ram(addr) {
        vram[mirror(addr)]
    } else {
        0
    }
}

/// The RAM after a write of `data` to `addr`: only RAM addresses store.
pub open spec fn bus_store(vram: Seq<u8>, addr: u16, data: u8) -> Seq<u8> {
    if is_ram(addr) {
        vram.update(mirror(addr), data)
    } else {
        vram
    }
}

/// Byte and word access to an address space.
pub trait Mem {
    /// Whether this memory serves an access at `addr`.
    spec fn accessible(&self, addr: u16) -> bool;

    // byte
    fn mem_read(&self, addr: u16) -> (data: u8)
        requires
            self.accessible(addr),
    ;

    fn mem_write(&mut self, addr: u16, data: u8)
        requires
            old(self).accessible(addr),
    ;

    // word
    fn mem_read_u16(&self, addr: u16) -> (data: u16)
        requires
            self.accessible(addr),
            self.accessible(wrap16(addr + 1)),
    ;

    fn mem_write_u16(&mut self, addr: u16, data: u16)
        requires
            old(self).accessible(addr),
            old(self).accessible(wrap16(addr + 1)),
    ;
}

impl Bus {
    /// The contents of the work RAM.
    pub closed spec fn vram(&self) -> Seq<u8> {
        self.cpu_vram@
    }

    /// The work RAM always has its full size.
    pub proof fn lemma_vram_len(&self)
        ensures
            self.vram().len() == VRAM_SIZE,
    {
    }
}

impl Default for Bus {
    fn default() -> (bus: Self)
        ensures
            bus.vram() == Seq::new(VRAM_SIZE as nat, |i: int| 0u8),
    {
        let bus = Self { cpu_vram: [0u8; 2048] };
        proof {
            broadcast use vstd::array::axiom_spec_array_fill_for_copy_type;

            assert(bus.vram() =~= Seq::new(VRAM_SIZE as nat, |i: int| 0u8));
        }
        bus
    }
}

proof fn lemma_mirror_mask(addr: u16)
    ensures
        addr & 0b00000111_11111111u16 == addr % 2048,
{
    assert(addr & 0b00000111_11111111u16 == addr % 2048) by (bit_vector);
}

impl Mem for Bus {
    open spec fn accessible(&self, addr: u16) -> bool {
        !is_ppu(addr)
    }

    fn mem_read(&self, addr: u16) -> (data: u8)
        ensures
            data == bus_value(self.vram(), addr),
    {
        if RAM_START <= addr && addr <= RAM_END {
            proof {
                lemma_mirror_mask(addr);
            }
            let mirror_down_addr = addr & 0b00000111_11111111;
            self.cpu_vram[mirror_down_addr as usize]
        } else {
            // outside RAM and the PPU registers nothing answers
            0
        }
    }

    fn mem_write(&mut self, addr: u16, data: u8)
        ensures
            final(self).vram() == bus_store(old(self).vram(), addr, data),
    {
        if RAM_START <= addr && addr <= RAM_END {
            proof {
                lemma_mirror_mask(addr);
            }
            let mirror_down_addr = addr & 0b00000111_11111111;
            self.cpu_vram[mirror_down_addr as usize] = data;
            assert(self.vram() =~= bus_store(old(self).vram(), addr, data));
        }
        // a write outside RAM and the PPU registers is ignored

    }

    fn mem_read_u16(&self, addr: u16) -> (data: u16)
        ensures
            data == word(bus_value(self.vram(), addr), bus_value(self.vram(), wrap16(addr + 1))),
    {
        let lo = self.mem_read(addr);
        let hi = self.mem_read(addr.wrapping_add(1));
        proof {
            lemma_join_word(lo, hi);
        }
        ((hi as u16) << 8) | (lo as u16)
    }

    fn mem_write_u16(&mut self, addr: u16, data: u16)
        ensures
            final(self).vram() == bus_store(
                bus_store(old(self).vram(), addr, (data % 256) as u8),
                wrap16(addr + 1),
                (data / 256) as u8,
            ),
    {
        proof {
            lemma_split_word(data);
        }
        let lo = (data & 0xff) as u8;
        let hi = (data >> 8) as u8;

        self.mem_write(addr, lo);
        self.mem_write(addr.wrapping_add(1), hi);
    }
}

/// A read below `0x2000` gives RAM cell `addr mod 2048`; a read at `0x4000` or
/// above gives 0. A write below `0x2000` stores into that cell only; a write at
/// `0x4000` or above changes nothing.
pub proof fn law_bus_access(vram: Seq<u8>, addr: u16, data: u8)
    requires
        vram.len() == VRAM_SIZE,
        addr < 0x2000 || addr >= 0x4000,
    ensures
        addr < 0x2000 ==> bus_value(vram, addr) == vram[addr as int % 2048],
        addr < 0x2000 ==> bus_store(vram, addr, data) == vram.update(addr as int % 2048, data),
        addr >= 0x4000 ==> bus_value(vram, addr) == 0,
        addr >= 0x4000 ==> bus_store(vram, addr, data) == vram,
{
}

/// Every RAM address reaches the same cell as the addresses 2 KiB away from it
/// inside the RAM range.
pub proof fn lemma_ram_mirrors(vram: Seq<u8>, addr: u16)
    requires
        vram.len() == VRAM_SIZE,
        addr + 0x800 <= RAM_END,
    ensures
        bus_value(vram, addr) == bus_value(vram, (addr + 0x800) as u16),
{
}

/// A read gives what the last write to the same RAM cell stored, from any of
/// its mirrors; other cells keep their contents.
pub proof fn lemma_read_after_write(vram: Seq<u8>, addr: u16, data: u8, other: u16)
    requires
        vram.len() == VRAM_SIZE,
        is_ram(addr),
    ensures
        is_ram(other) && mirror(other) == mirror(addr) ==> bus_value(
            bus_store(vram, addr, data),
            other,
        ) == data,
        mirror(other) != mirror(addr) ==> bus_value(bus_store(vram, addr, data), other)
            == bus_value(vram, other),
{
}

/// A write outside the RAM changes nothing, and a read there gives 0.
pub proof fn lemma_outside_ram(vram: Seq<u8>, addr: u16, data: u8)
    requires
        !is_ram(addr),
    ensures
        bus_store(vram, addr, data) == vram,
        bus_value(vram, addr) == 0,
{
}

} // verus!
