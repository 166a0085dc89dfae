use vstd::prelude::*;

verus! {

/// Number of addressable bytes: the whole 16-bit address space.
pub const MEMORY_SIZE: usize = 0x10000;

/// The 64 KiB address space of the machine.
///
/// Memory map: 0x0000-0x00FF boot ROM, 0x0000-0x3FFF game ROM bank 0,
/// 0x4000-0x7FFF game ROM bank N, 0x8000-0x97FF tile RAM, 0x9800-0x9FFF
/// background map, 0xA000-0xBFFF cartridge RAM, 0xC000-0xDFFF working RAM,
/// 0xE000-0xFDFF echo RAM, 0xFE00-0xFE9F OAM sprite table, 0xFEA0-0xFEFF
/// unused, 0xFF00-0xFF7F I/O registers, 0xFF80-0xFFFE high RAM, 0xFFFF
/// interrupt enable. Every region is currently backed by plain storage.
pub struct MemoryBus {
    memory: [u8; MEMORY_SIZE],
}

impl View for MemoryBus {
    type V = Seq<u8>;

    closed spec fn view(&self) -> Seq<u8> {
        self.memory@
    }
}

/// The view of a bus always covers the whole address space.
pub broadcast proof fn lemma_bus_len(bus: &MemoryBus)
    ensures
        #[trigger] bus@.len() == MEMORY_SIZE,
{
}

impl MemoryBus {
    /// A bus whose every byte is zero.
    pub fn new() -> (bus: MemoryBus)
        ensures
            bus@ == Seq::new(MEMORY_SIZE as nat, |i: int| 0u8),
    {
        let bus = MemoryBus { memory: [0u8; MEMORY_SIZE] };
        assert(bus@ =~= Seq::new(MEMORY_SIZE as nat, |i: int| 0u8));
        bus
    }

    /// The byte stored at `addr`.
    pub fn read_byte(&self, addr: u16) -> (v: u8)
        ensures
            v == self@[addr as int],
    {
        self.memory[addr as usize]
    }

    /// Stores `value` at `addr`; every other byte is left as it was.
    pub fn write_byte(&mut self, addr: u16, value: u8)
        ensures
            final(self)@ == old(self)@.update(addr as int, value),
    {
        self.memory[addr as usize] = value;
    }
}

} // verus!
