//! The memory bus: 8, 16 and 32-bit accesses routed to the console's
//! memory regions.

use vstd::prelude::*;

verus! {

pub const IWRAM_SIZE: usize = 32 * 1024;

pub const EWRAM_SIZE: usize = 256 * 1024;

pub const VRAM_SIZE: usize = 96 * 1024;

pub const OAM_SIZE: usize = 1 * 1024;

pub const PAL_RAM_SIZE: usize = 1 * 1024;

pub const BIOS_END: u32 = 0x0000_3FFF;

pub const EWRAM_START: u32 = 0x0200_0000;

pub const EWRAM_END: u32 = 0x0203_FFFF;

pub const IWRAM_START: u32 = 0x0300_0000;

pub const IWRAM_END: u32 = 0x0300_7FFF;

pub const IOREGS_START: u32 = 0x0400_0000;

pub const IOREGS_END: u32 = 0x0400_03FF;

pub const PAL_START: u32 = 0x0500_0000;

pub const PAL_END: u32 = 0x0500_03FF;

pub const VRAM_START: u32 = 0x0600_0000;

pub const VRAM_END: u32 = 0x0601_7FFF;

pub const OAM_START: u32 = 0x0700_0000;

pub const OAM_END: u32 = 0x0700_03FF;

/// An access to an address that no region maps.
#[derive(Clone, Copy, Debug, PartialEq, Eq, Structural)]
pub struct BusFault {
    /// The byte address that could not be routed.
    pub address: u32,
}

/// The regions of the address space.
#[derive(Clone, Copy, Debug, PartialEq, Eq, Structural)]
pub enum MemoryRegion {
    /// Read-only; stores are dropped.
    Bios,
    Ewram,
    Iwram,
    /// Registers behind opaque handlers: loads give 0, stores are dropped.
    IoRegs,
    Palette,
    Vram,
    Oam,
}

/// The region that maps `address`, if any.
pub open spec fn region_of(address: u32) -> Option<MemoryRegion> {
    if address <= BIOS_END {
        Some(MemoryRegion::Bios)
    } else if EWRAM_START <= address <= EWRAM_END {
        Some(MemoryRegion::Ewram)
    } else if IWRAM_START <= address <= IWRAM_END {
        Some(MemoryRegion::Iwram)
    } else if IOREGS_START <= address <= IOREGS_END {
        Some(MemoryRegion::IoRegs)
    } else if PAL_START <= address <= PAL_END {
        Some(MemoryRegion::Palette)
    } else if VRAM_START <= address <= VRAM_END {
        Some(MemoryRegion::Vram)
    } else if OAM_START <= address <= OAM_END {
        Some(MemoryRegion::Oam)
    } else {
        None
    }
}

/// Whether a store to `address` is kept: the address lies in one of the
/// five RAM regions.
pub open spec fn is_writable(address: u32) -> bool {
    match region_of(address) {
        Some(MemoryRegion::Ewram) | Some(MemoryRegion::Iwram) | Some(MemoryRegion::Palette)
        | Some(MemoryRegion::Vram) | Some(MemoryRegion::Oam) => true,
        _ => false,
    }
}

/// The index of `address` inside VRAM: the address is taken modulo
/// 128 KiB, and the upper 32 KiB of that window fold back onto the
/// 32 KiB below them.
pub open spec fn vram_index(address: u32) -> u32 {
    let offset = address & 0x1FFFF;
    if offset >= 0x18000 {
        (offset - 0x8000) as u32
    } else {
        offset
    }
}

/// The index of `address` inside the storage of `region`: the address
/// modulo the region's size.
pub open spec fn region_index(region: MemoryRegion, address: u32) -> u32 {
    match region {
        MemoryRegion::Bios => address & 0x3FFF,
        MemoryRegion::Ewram => address & 0x3FFFF,
        MemoryRegion::Iwram => address & 0x7FFF,
        MemoryRegion::IoRegs => address & 0x3FF,
        MemoryRegion::Palette => address & 0x3FF,
        MemoryRegion::Vram => vram_index(address),
        MemoryRegion::Oam => address & 0x3FF,
    }
}

/// What a bus is to its users: a byte can be loaded from an address, and
/// a byte can be stored to one. Wider accesses are built from these.
pub trait BusModel: Sized {
    /// The byte at `address`, or the fault where nothing is mapped there.
    spec fn load8(self, address: u32) -> Result<u8, BusFault>;

    /// The bus after `value` was stored at `address`, or the fault where
    /// nothing is mapped there.
    spec fn store8(self, address: u32, value: u8) -> Result<Self, BusFault>;
}

/// The half-word at `address`: the byte there is the low half, the byte
/// at the next address the high half. The first fault met is reported.
pub open spec fn load16<B: BusModel>(bus: B, address: u32) -> Result<u16, BusFault> {
    match bus.load8(address) {
        Err(fault) => Err(fault),
        Ok(lo) => match bus.load8(address.wrapping_add(1)) {
            Err(fault) => Err(fault),
            Ok(hi) => Ok(((hi as u16) << 8) | (lo as u16)),
        },
    }
}

/// The word at `address`: the half-word there is the low half, the
/// half-word two bytes on the high half.
pub open spec fn load32<B: BusModel>(bus: B, address: u32) -> Result<u32, BusFault> {
    match load16(bus, address) {
        Err(fault) => Err(fault),
        Ok(lo) => match load16(bus, address.wrapping_add(2)) {
            Err(fault) => Err(fault),
            Ok(hi) => Ok(((hi as u32) << 16) | (lo as u32)),
        },
    }
}

/// The bus after an attempt to store a byte, and how the attempt ended.
/// A fault leaves the bus as it was.
pub open spec fn stored8<B: BusModel>(bus: B, address: u32, value: u8) -> (
    B,
    Result<(), BusFault>,
) {
    match bus.store8(address, value) {
        Err(fault) => (bus, Err(fault)),
        Ok(after) => (after, Ok(())),
    }
}

/// The bus after an attempt to store a half-word, low byte first. A fault
/// ends the attempt: what was stored before it stays.
pub open spec fn stored16<B: BusModel>(bus: B, address: u32, value: u16) -> (
    B,
    Result<(), BusFault>,
) {
    let low = stored8(bus, address, value as u8);
    if low.1 is Err {
        low
    } else {
        stored8(low.0, address.wrapping_add(1), (value >> 8) as u8)
    }
}

/// The bus after an attempt to store a word, low half-word first. A fault
/// ends the attempt: what was stored before it stays.
pub open spec fn stored32<B: BusModel>(bus: B, address: u32, value: u32) -> (
    B,
    Result<(), BusFault>,
) {
    let low = stored16(bus, address, value as u16);
    if low.1 is Err {
        low
    } else {
        stored16(low.0, address.wrapping_add(2), (value >> 16) as u16)
    }
}

/// Byte, half-word and word accesses to a bus. Only the byte accesses
/// must be supplied; the wider ones are composed from them in
/// little-endian order, and an implementation that replaces them must
/// give the same results.
pub trait MemoryOperation: View + Sized where Self::V: BusModel {
    /// Reads the byte at `address`.
    fn read8(&self, address: u32) -> (r: Result<u8, BusFault>)
        ensures
            r == self@.load8(address),
    ;

    /// Reads the half-word whose low byte is at `address`.
    fn read16(&self, address: u32) -> (r: Result<u16, BusFault>)
        ensures
            r == load16(self@, address),
    {
        match self.read8(address) {
            Err(fault) => Err(fault),
            Ok(lo) => match self.read8(address.wrapping_add(1)) {
                Err(fault) => Err(fault),
                Ok(hi) => Ok(((hi as u16) << 8) | (lo as u16)),
            },
        }
    }

    /// Reads the word whose lowest byte is at `address`.
    fn read32(&self, address: u32) -> (r: Result<u32, BusFault>)
        ensures
            r == load32(self@, address),
    {
        match self.read16(address) {
            Err(fault) => Err(fault),
            Ok(lo) => match self.read16(address.wrapping_add(2)) {
                Err(fault) => Err(fault),
                Ok(hi) => Ok(((hi as u32) << 16) | (lo as u32)),
            },
        }
    }

    /// Stores a byte at `address`. A fault leaves the bus as it was.
    fn write8(&mut self, address: u32, value: u8) -> (r: Result<(), BusFault>)
        ensures
            (final(self)@, r) == stored8(old(self)@, address, value),
    ;

    /// Stores a half-word, its low byte at `address` and its high byte at
    /// the next address. A fault at the second byte leaves the first
    /// stored.
    fn write16(&mut self, address: u32, value: u16) -> (r: Result<(), BusFault>)
        ensures
            (final(self)@, r) == stored16(old(self)@, address, value),
    {
        match self.write8(address, #[verifier::truncate] (value as u8)) {
            Err(fault) => Err(fault),
            Ok(()) => self.write8(address.wrapping_add(1), (value >> 8) as u8),
        }
    }

    /// Stores a word, its low half-word at `address` and its high
    /// half-word two bytes on. A fault leaves stored what came before it.
    fn write32(&mut self, address: u32, value: u32) -> (r: Result<(), BusFault>)
        ensures
            (final(self)@, r) == stored32(old(self)@, address, value),
    {
        match self.write16(address, #[verifier::truncate] (value as u16)) {
            Err(fault) => Err(fault),
            Ok(()) => self.write16(address.wrapping_add(2), (value >> 16) as u16),
        }
    }
}

/// The contents of the console's RAM regions. The BIOS and the I/O
/// registers hold nothing of their own: they read as zero.
pub struct MemoryImage {
    pub ewram: Seq<u8>,
    pub iwram: Seq<u8>,
    pub pal_ram: Seq<u8>,
    pub vram: Seq<u8>,
    pub oam: Seq<u8>,
}

impl MemoryImage {
    /// Every region has its size.
    pub open spec fn wf(self) -> bool {
        &&& self.ewram.len() == EWRAM_SIZE
        &&& self.iwram.len() == IWRAM_SIZE
        &&& self.pal_ram.len() == PAL_RAM_SIZE
        &&& self.vram.len() == VRAM_SIZE
        &&& self.oam.len() == OAM_SIZE
    }

    /// All regions filled with zero.
    pub open spec fn zeroed() -> MemoryImage {
        MemoryImage {
            ewram: Seq::new(EWRAM_SIZE as nat, |i: int| 0u8),
            iwram: Seq::new(IWRAM_SIZE as nat, |i: int| 0u8),
            pal_ram: Seq::new(PAL_RAM_SIZE as nat, |i: int| 0u8),
            vram: Seq::new(VRAM_SIZE as nat, |i: int| 0u8),
            oam: Seq::new(OAM_SIZE as nat, |i: int| 0u8),
        }
    }
}

impl BusModel for MemoryImage {
    open spec fn load8(self, address: u32) -> Result<u8, BusFault> {
        match region_of(address) {
            None => Err(BusFault { address }),
            Some(region) => {
                let index = region_index(region, address) as int;
                match region {
                    MemoryRegion::Bios => Ok(0u8),
                    MemoryRegion::Ewram => Ok(self.ewram[index]),
                    MemoryRegion::Iwram => Ok(self.iwram[index]),
                    MemoryRegion::IoRegs => Ok(0u8),
                    MemoryRegion::Palette => Ok(self.pal_ram[index]),
                    MemoryRegion::Vram => Ok(self.vram[index]),
                    MemoryRegion::Oam => Ok(self.oam[index]),
                }
            },
        }
    }

    open spec fn store8(self, address: u32, value: u8) -> Result<Self, BusFault> {
        match region_of(address) {
            None => Err(BusFault { address }),
            Some(region) => {
                let index = region_index(region, address) as int;
                match region {
                    MemoryRegion::Bios => Ok(self),
                    MemoryRegion::Ewram => Ok(
                        MemoryImage { ewram: self.ewram.update(index, value), ..self },
                    ),
                    MemoryRegion::Iwram => Ok(
                        MemoryImage { iwram: self.iwram.update(index, value), ..self },
                    ),
                    MemoryRegion::IoRegs => Ok(self),
                    MemoryRegion::Palette => Ok(
                        MemoryImage { pal_ram: self.pal_ram.update(index, value), ..self },
                    ),
                    MemoryRegion::Vram => Ok(
                        MemoryImage { vram: self.vram.update(index, value), ..self },
                    ),
                    MemoryRegion::Oam => Ok(
                        MemoryImage { oam: self.oam.update(index, value), ..self },
                    ),
                }
            },
        }
    }
}

proof fn lemma_window_masks(address: u32)
    by (bit_vector)
    ensures
        address <= 0x3FFF ==> address & 0x3FFF == address,
        0x0200_0000 <= address <= 0x0203_FFFF ==> address & 0x3FFFF == address - 0x0200_0000,
        0x0300_0000 <= address <= 0x0300_7FFF ==> address & 0x7FFF == address - 0x0300_0000,
        0x0400_0000 <= address <= 0x0400_03FF ==> address & 0x3FF == address - 0x0400_0000,
        0x0500_0000 <= address <= 0x0500_03FF ==> address & 0x3FF == address - 0x0500_0000,
        0x0600_0000 <= address <= 0x0601_7FFF ==> address & 0x1FFFF == address - 0x0600_0000,
        0x0700_0000 <= address <= 0x0700_03FF ==> address & 0x3FF == address - 0x0700_0000,
{
}

/// The first address of a region's window.
pub open spec fn region_start(region: MemoryRegion) -> u32 {
    match region {
        MemoryRegion::Bios => 0u32,
        MemoryRegion::Ewram => EWRAM_START,
        MemoryRegion::Iwram => IWRAM_START,
        MemoryRegion::IoRegs => IOREGS_START,
        MemoryRegion::Palette => PAL_START,
        MemoryRegion::Vram => VRAM_START,
        MemoryRegion::Oam => OAM_START,
    }
}

/// Inside a region's window the index of an address is its distance from
/// the window's start: no two addresses of a window share a cell, and
/// every index lies inside the region's storage.
pub proof fn lemma_region_index(address: u32)
    ensures
        region_of(address) matches Some(region) ==> region_index(region, address) == address
            - region_start(region),
{
    lemma_window_masks(address);
}

/// The memory of the console: the five RAM regions, with the BIOS and the
/// I/O registers mapped but empty.
pub struct SysMem {
    iwram: [u8; IWRAM_SIZE],
    ewram: [u8; EWRAM_SIZE],
    vram: [u8; VRAM_SIZE],
    oam: [u8; OAM_SIZE],
    pal_ram: [u8; PAL_RAM_SIZE],
}

impl View for SysMem {
    type V = MemoryImage;

    closed spec fn view(&self) -> MemoryImage {
        MemoryImage {
            ewram: self.ewram@,
            iwram: self.iwram@,
            pal_ram: self.pal_ram@,
            vram: self.vram@,
            oam: self.oam@,
        }
    }
}

/// Routes an address to its region.
pub fn region(address: u32) -> (r: Option<MemoryRegion>)
    ensures
        r == region_of(address),
{
    if address <= BIOS_END {
        Some(MemoryRegion::Bios)
    } else if EWRAM_START <= address && address <= EWRAM_END {
        Some(MemoryRegion::Ewram)
    } else if IWRAM_START <= address && address <= IWRAM_END {
        Some(MemoryRegion::Iwram)
    } else if IOREGS_START <= address && address <= IOREGS_END {
        Some(MemoryRegion::IoRegs)
    } else if PAL_START <= address && address <= PAL_END {
        Some(MemoryRegion::Palette)
    } else if VRAM_START <= address && address <= VRAM_END {
        Some(MemoryRegion::Vram)
    } else if OAM_START <= address && address <= OAM_END {
        Some(MemoryRegion::Oam)
    } else {
        None
    }
}

/// The size of a region in bytes.
pub open spec fn region_size(region: MemoryRegion) -> nat {
    match region {
        MemoryRegion::Bios => 0x4000,
        MemoryRegion::Ewram => EWRAM_SIZE as nat,
        MemoryRegion::Iwram => IWRAM_SIZE as nat,
        MemoryRegion::IoRegs => 0x400,
        MemoryRegion::Palette => PAL_RAM_SIZE as nat,
        MemoryRegion::Vram => VRAM_SIZE as nat,
        MemoryRegion::Oam => OAM_SIZE as nat,
    }
}

proof fn lemma_index_bounds(address: u32)
    by (bit_vector)
    ensures
        address & 0x3FFF < 0x4000,
        address & 0x3FFFF < 0x40000,
        address & 0x7FFF < 0x8000,
        address & 0x3FF < 0x400,
        address & 0x1FFFF < 0x20000,
{
}

/// The cell of `region` that stands for `address`: the address modulo
/// the size of the region, which lies inside the region whatever the
/// address is.
pub fn region_offset(region: MemoryRegion, address: u32) -> (index: usize)
    ensures
        index == region_index(region, address),
        index < region_size(region),
{
    proof {
        lemma_index_bounds(address);
    }
    match region {
        MemoryRegion::Bios => (address & 0x3FFF) as usize,
        MemoryRegion::Ewram => (address & 0x3FFFF) as usize,
        MemoryRegion::Iwram => (address & 0x7FFF) as usize,
        MemoryRegion::IoRegs => (address & 0x3FF) as usize,
        MemoryRegion::Palette => (address & 0x3FF) as usize,
        MemoryRegion::Vram => {
            let offset: u32 = address & 0x1FFFF;
            if offset >= 0x18000 {
                (offset - 0x8000) as usize
            } else {
                offset as usize
            }
        },
        MemoryRegion::Oam => (address & 0x3FF) as usize,
    }
}

impl SysMem {
    /// Memory with every cell zero.
    pub fn new() -> (mem: Self)
        ensures
            mem@ == MemoryImage::zeroed(),
    {
        let mem = SysMem {
            iwram: [0; IWRAM_SIZE],
            ewram: [0; EWRAM_SIZE],
            vram: [0; VRAM_SIZE],
            oam: [0; OAM_SIZE],
            pal_ram: [0; PAL_RAM_SIZE],
        };
        proof {
            let zero = MemoryImage::zeroed();
            assert(mem@.ewram =~= zero.ewram);
            assert(mem@.iwram =~= zero.iwram);
            assert(mem@.pal_ram =~= zero.pal_ram);
            assert(mem@.vram =~= zero.vram);
            assert(mem@.oam =~= zero.oam);
        }
        mem
    }

    /// The regions of any memory have their sizes.
    pub proof fn lemma_view_wf(&self)
        ensures
            self@.wf(),
    {
    }
}

impl MemoryOperation for SysMem {
    fn read8(&self, address: u32) -> (r: Result<u8, BusFault>) {
        match region(address) {
            None => Err(BusFault { address }),
            Some(region) => {
                let index = region_offset(region, address);
                match region {
                    MemoryRegion::Bios => Ok(0),
                    MemoryRegion::Ewram => Ok(self.ewram[index]),
                    MemoryRegion::Iwram => Ok(self.iwram[index]),
                    MemoryRegion::IoRegs => Ok(0),
                    MemoryRegion::Palette => Ok(self.pal_ram[index]),
                    MemoryRegion::Vram => Ok(self.vram[index]),
                    MemoryRegion::Oam => Ok(self.oam[index]),
                }
            },
        }
    }

    fn write8(&mut self, address: u32, value: u8) -> (r: Result<(), BusFault>) {
        match region(address) {
            None => Err(BusFault { address }),
            Some(region) => {
                let index = region_offset(region, address);
                match region {
                    MemoryRegion::Bios => {},
                    MemoryRegion::Ewram => {
                        self.ewram[index] = value;
                    },
                    MemoryRegion::Iwram => {
                        self.iwram[index] = value;
                    },
                    MemoryRegion::IoRegs => {},
                    MemoryRegion::Palette => {
                        self.pal_ram[index] = value;
                    },
                    MemoryRegion::Vram => {
                        self.vram[index] = value;
                    },
                    MemoryRegion::Oam => {
                        self.oam[index] = value;
                    },
                }
                Ok(())
            },
        }
    }
}

/// What one byte store does to every byte load. A store to RAM is seen at
/// its own address and nowhere else; a store to the BIOS or to the I/O
/// registers is seen nowhere; a store to an unmapped address faults.
pub proof fn lemma_store8_load8(mem: MemoryImage, address: u32, value: u8, other: u32)
    requires
        mem.wf(),
    ensures
        region_of(address) is None ==> mem.store8(address, value) == Err::<MemoryImage, BusFault>(
            BusFault { address },
        ),
        region_of(address) is Some ==> (mem.store8(address, value) matches Ok(after) && after.wf()
            && after.load8(other) == if other == address && is_writable(address) {
            Ok::<u8, BusFault>(value)
        } else {
            mem.load8(other)
        }),
{
    lemma_region_index(address);
    lemma_region_index(other);
}

proof fn lemma_bytes_of_half_word(value: u16)
    by (bit_vector)
    ensures
        value as u8 == (value & 0xFF) as u8,
        (value >> 8) as u8 == ((value >> 8) & 0xFF) as u8,
        (((value >> 8) as u8 as u16) << 8) | (value as u8 as u16) == value,
{
}

proof fn lemma_halves_of_word(value: u32)
    by (bit_vector)
    ensures
        (((value >> 16) as u16 as u32) << 16) | (value as u16 as u32) == value,
{
}

/// A half-word stored in RAM is read back byte by byte in little-endian
/// order: the low byte at the address, the high byte at the next.
pub proof fn lemma_write16_read8(mem: MemoryImage, address: u32, value: u16)
    requires
        mem.wf(),
        is_writable(address),
        is_writable(address.wrapping_add(1)),
    ensures
        stored16(mem, address, value).1 is Ok,
        stored16(mem, address, value).0.wf(),
        stored16(mem, address, value).0.load8(address) == Ok::<u8, BusFault>((value & 0xFF) as u8),
        stored16(mem, address, value).0.load8(address.wrapping_add(1)) == Ok::<u8, BusFault>(
            ((value >> 8) & 0xFF) as u8,
        ),
        load16(stored16(mem, address, value).0, address) == Ok::<u16, BusFault>(value),
{
    let next = address.wrapping_add(1);
    lemma_bytes_of_half_word(value);
    lemma_store8_load8(mem, address, value as u8, address);
    let low = stored8(mem, address, value as u8).0;
    lemma_store8_load8(low, next, (value >> 8) as u8, address);
    lemma_store8_load8(low, next, (value >> 8) as u8, next);
}

/// A word stored at a word-aligned address of RAM is the word read back
/// from that address.
pub proof fn lemma_write32_read32(mem: MemoryImage, address: u32, value: u32)
    requires
        mem.wf(),
        address % 4 == 0,
        is_writable(address),
    ensures
        stored32(mem, address, value).1 is Ok,
        stored32(mem, address, value).0.wf(),
        load32(stored32(mem, address, value).0, address) == Ok::<u32, BusFault>(value),
{
    let upper = address.wrapping_add(2);
    let low_half = value as u16;
    let high_half = (value >> 16) as u16;
    lemma_halves_of_word(value);
    lemma_write16_read8(mem, address, low_half);
    let low = stored16(mem, address, low_half).0;
    lemma_write16_read8(low, upper, high_half);
    let after = stored16(low, upper, high_half).0;
    assert(after.load8(address) == low.load8(address) && after.load8(address.wrapping_add(1))
        == low.load8(address.wrapping_add(1))) by {
        let first = stored8(low, upper, high_half as u8).0;
        lemma_store8_load8(low, upper, high_half as u8, address);
        lemma_store8_load8(low, upper, high_half as u8, address.wrapping_add(1));
        lemma_store8_load8(first, upper.wrapping_add(1), (high_half >> 8) as u8, address);
        lemma_store8_load8(
            first,
            upper.wrapping_add(1),
            (high_half >> 8) as u8,
            address.wrapping_add(1),
        );
    }
}

proof fn lemma_zero_halves()
    by (bit_vector)
    ensures
        ((0u8 as u16) << 8) | (0u8 as u16) == 0u16,
        ((0u16 as u32) << 16) | (0u16 as u32) == 0u32,
{
}

/// The BIOS holds nothing: every byte, half-word and word that lies in
/// its window is mapped and reads as zero.
pub proof fn lemma_bios_reads_zero(mem: MemoryImage, address: u32)
    ensures
        address <= BIOS_END ==> mem.load8(address) == Ok::<u8, BusFault>(0),
        address < BIOS_END ==> load16(mem, address) == Ok::<u16, BusFault>(0),
        address <= BIOS_END - 3 ==> load32(mem, address) == Ok::<u32, BusFault>(0),
{
    lemma_zero_halves();
}

} // verus!
