//! The memory: a fixed number of byte cells, with little-endian 16-bit
//! access and program loading.

use vstd::prelude::*;

verus! {

/// The number of memory cells; addresses run from 0 to one less than this.
pub const MEMORY_SIZE: usize = 0xFFFF;

/// Whether an address names a memory cell.
pub open spec fn in_range(addr: int) -> bool {
    0 <= addr < MEMORY_SIZE
}

/// The little-endian 16-bit value at `pos` and `pos + 1`.
pub open spec fn read_u16(mem: Seq<u8>, pos: int) -> u16 {
    (mem[pos] + 256 * mem[pos + 1]) as u16
}

/// The memory after a little-endian 16-bit store at `pos` and `pos + 1`.
pub open spec fn write_u16(mem: Seq<u8>, pos: int, data: u16) -> Seq<u8> {
    mem.update(pos, (data % 256) as u8).update(pos + 1, (data / 256) as u8)
}

/// The memory after `program` has been copied in from `origin` on.
pub open spec fn load_program(mem: Seq<u8>, origin: int, program: Seq<u8>) -> Seq<u8> {
    Seq::new(
        mem.len(),
        |i: int|
            if origin <= i < origin + program.len() {
                program[i - origin]
            } else {
                mem[i]
            },
    )
}

/// The byte cells of one machine.
pub struct Memory {
    cells: [u8; 0xFFFF],
}

impl View for Memory {
    type V = Seq<u8>;

    closed spec fn view(&self) -> Seq<u8> {
        self.cells@
    }
}

impl Memory {
    /// Every memory has exactly `MEMORY_SIZE` cells.
    pub proof fn lemma_size(&self)
        ensures
            self@.len() == MEMORY_SIZE,
    {
    }

    /// A memory with every cell at zero.
    pub fn new() -> (memory: Memory)
        ensures
            memory@ == Seq::new(MEMORY_SIZE as nat, |i: int| 0u8),
    {
        let memory = Memory { cells: [0; 0xFFFF] };
        assert(memory@ =~= Seq::new(MEMORY_SIZE as nat, |i: int| 0u8));
        memory
    }

    /// Reads the cell at `addr`.
    pub fn read(&self, addr: u16) -> (data: u8)
        requires
            in_range(addr as int),
        ensures
            data == self@[addr as int],
    {
        self.cells[addr as usize]
    }

    /// Stores `data` in the cell at `addr`.
    pub fn write(&mut self, addr: u16, data: u8)
        requires
            in_range(addr as int),
        ensures
            final(self)@ == old(self)@.update(addr as int, data),
    {
        self.cells[addr as usize] = data;
    }

    /// Reads the little-endian 16-bit value at `pos` and `pos + 1`.
    pub fn read_u16(&self, pos: u16) -> (data: u16)
        requires
            in_range(pos + 1),
        ensures
            data == read_u16(self@, pos as int),
    {
        let lo = self.read(pos);
        let hi = self.read(pos + 1);
        assert(((hi as u16) << 8) | (lo as u16) == (lo + 256 * hi) as u16) by (bit_vector);
        ((hi as u16) << 8) | (lo as u16)
    }

    /// Stores a 16-bit value, low byte first, at `pos` and `pos + 1`.
    pub fn write_u16(&mut self, pos: u16, data: u16)
        requires
            in_range(pos + 1),
        ensures
            final(self)@ == write_u16(old(self)@, pos as int, data),
    {
        let hi = (data >> 8) as u8;
        let lo = (data & 0xff) as u8;
        assert((data >> 8) as u8 == (data / 256) as u8) by (bit_vector);
        assert((data & 0xff) as u8 == (data % 256) as u8) by (bit_vector);
        self.write(pos, lo);
        self.write(pos + 1, hi);
    }

    /// Copies `program` into the cells from `origin` on.
    pub fn load(&mut self, origin: u16, program: &Vec<u8>)
        requires
            origin + program.len() <= MEMORY_SIZE,
        ensures
            final(self)@ == load_program(old(self)@, origin as int, program@),
    {
        let mut i: usize = 0;
        while i < program.len()
            invariant
                i <= program.len(),
                origin + program.len() <= MEMORY_SIZE,
                self@.len() == MEMORY_SIZE,
                forall|j: int|
                    0 <= j < MEMORY_SIZE ==> self@[j] == if origin <= j < origin + i {
                        program@[j - origin]
                    } else {
                        old(self)@[j]
                    },
            decreases program.len() - i,
        {
            self.cells[origin as usize + i] = program[i];
            i += 1;
        }
        assert(self@ =~= load_program(old(self)@, origin as int, program@));
    }
}

} // verus!
