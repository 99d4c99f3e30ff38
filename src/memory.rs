use vstd::prelude::*;

use crate::instructions::Instruction;

verus! {

/* Zero-page start and end address */
pub const ZP_S: u16 = 0x0000;
pub const ZP_E: u16 = 0x00FF;

/* Stack start and end address */
pub const STACK_S: u16 = 0x0100;
pub const STACK_E: u16 = 0x01FF;

/* Program-RAM start and end address */
pub const PROGRAM_RAM_S: u16 = 0x0200;
pub const PROGRAM_RAM_E: u16 = 0x3FFF;

/* Memory mapped io start and end address */
pub const MEMORY_MAPPED_IO_S: u16 = 0x4000;
pub const MEMORY_MAPPED_IO_E: u16 = 0x7FFF;

/* Program-ROM start and end address */
pub const PROGRAM_ROM_S: u16 = 0x8000;
pub const PROGRAM_ROM_E: u16 = 0xFFF9;

/* Interrupt vectors (reserved, not acted upon) */
pub const VECTOR_ADDR_NMI_LOW: u16 = 0xFFFA;
pub const VECTOR_ADDR_NMI_HIGH: u16 = 0xFFFB;
pub const VECTOR_ADDR_RESET_LOW: u16 = 0xFFFC;
pub const VECTOR_ADDR_RESET_HIGH: u16 = 0xFFFD;
pub const VECTOR_ADDR_IRQ_BRK_LOW: u16 = 0xFFFE;
pub const VECTOR_ADDR_IRQ_BRK_HIGH: u16 = 0xFFFF;

/// Number of bytes in the address space.
pub const MEMORY_SIZE: usize = 65536;

/// `mem` with `bytes` written one after another from `start` on, the
/// addresses wrapping around the end of the address space.
pub open spec fn load_at(mem: Seq<u8>, start: int, bytes: Seq<u8>) -> Seq<u8> {
    Seq::new(
        mem.len(),
        |i: int|
            if (i - start) % 0x10000 < bytes.len() {
                bytes[(i - start) % 0x10000]
            } else {
                mem[i]
            },
    )
}

/// The whole 16-bit address space as flat storage, with a cursor that
/// places a program instruction by instruction from the start of ROM on.
pub struct Memory {
    pub physical_mem: [u8; MEMORY_SIZE],
    instruction_pos: u16,
}

impl View for Memory {
    type V = Seq<u8>;

    /// The byte stored at each address.
    closed spec fn view(&self) -> Seq<u8> {
        self.physical_mem@
    }
}

impl Memory {
    /// Where the next loaded instruction goes.
    pub closed spec fn load_cursor(&self) -> u16 {
        self.instruction_pos
    }

    /// The storage always spans the whole address space.
    pub proof fn lemma_spans_address_space(&self)
        ensures
            self@.len() == MEMORY_SIZE,
    {
    }

    pub fn new() -> (m: Memory)
        ensures
            m@.len() == MEMORY_SIZE,
            forall|i: int| 0 <= i < MEMORY_SIZE ==> m@[i] == 0,
            m.load_cursor() == PROGRAM_ROM_S,
    {
        Memory { physical_mem: [0u8; MEMORY_SIZE], instruction_pos: PROGRAM_ROM_S }
    }

    /// Writes the instruction's bytes at the cursor and moves the cursor past them.
    pub fn push_back_ins(&mut self, ins: Instruction)
        ensures
            final(self)@ == load_at(
                old(self)@,
                old(self).load_cursor() as int,
                ins.layout(),
            ),
            final(self).load_cursor() == (old(self).load_cursor() + ins.layout().len()) % 0x10000,
    {
        let layout = ins.convert_to_mem_layout();
        let start = self.instruction_pos;
        let mut i: usize = 0;
        while i < layout.len()
            invariant
                i <= layout@.len() <= 3,
                layout@ == ins.layout(),
                start == old(self).instruction_pos,
                self.instruction_pos == start,
                self.physical_mem@ == load_at(
                    old(self).physical_mem@,
                    start as int,
                    layout@.subrange(0, i as int),
                ),
            decreases layout@.len() - i,
        {
            let addr = start.wrapping_add(i as u16);
            self.physical_mem[addr as usize] = layout[i];
            i += 1;
            assert(self.physical_mem@ =~= load_at(
                old(self).physical_mem@,
                start as int,
                layout@.subrange(0, i as int),
            ));
        }
        assert(layout@.subrange(0, i as int) == layout@);
        self.instruction_pos = start.wrapping_add(layout.len() as u16);
    }

    pub fn read_byte(&self, addr: &u16) -> (r: &u8)
        ensures
            *r == self@[*addr as int],
    {
        &self.physical_mem[*addr as usize]
    }

    pub fn write_byte(&mut self, addr: &u16, value: &u8)
        ensures
            final(self)@ == old(self)@.update(*addr as int, *value),
            final(self).load_cursor() == old(self).load_cursor(),
    {
        self.physical_mem[*addr as usize] = *value;
    }
}

} // verus!
