//! A cycle-counted emulator of the Intel 8080 microprocessor.
use vstd::prelude::*;

pub mod cpu;
pub mod flags;
pub mod memory;
pub mod semantics;
pub mod theorems;

use cpu::{Cpu, Instruction, Interruptable};
use memory::{load_all_outcome, zeroed, Memory};
use semantics::{fetched, interrupted, step};

verus! {

/// An error that can occur in this crate.
#[derive(Clone, Copy, Debug, PartialEq, Eq, Structural)]
pub enum Error {
    /// An interrupt request arrived when the interrupt system was not enabled.
    InterruptNotEnabled,
    /// The image at position `index` of a list of images (0 for a single image), `size`
    /// bytes long, does not fit in memory from `start_address` on.
    TooLargeFile { index: usize, size: u64, start_address: u16 },
    /// An attempt to fetch and execute an instruction was made when the CPU was halted.
    Halted,
}

/// An Intel 8080 system.
pub struct Intel8080 {
    /// An Intel 8080 CPU.
    pub cpu: Cpu,
    /// A 64K memory.
    pub memory: Memory,
}

impl Intel8080 {
    /// Creates an Intel 8080 system by loading `images` into memory in
    /// sequence, the first at `start_address`, and setting the program
    /// counter to `start_address`.
    ///
    /// # Errors
    ///
    /// [`Error::TooLargeFile`] for the first image that does not fit.
    pub fn new(images: &[Vec<u8>], start_address: u16) -> (r: Result<Intel8080, Error>)
        ensures
            ({
                let (mem, outcome) = load_all_outcome(
                    zeroed(),
                    images@.map_values(|v: Vec<u8>| v@),
                    start_address,
                    0,
                );
                match r {
                    Ok(system) => {
                        &&& outcome is Ok
                        &&& system.cpu == (Cpu { pc: start_address, ..Cpu::initial() })
                        &&& system.memory@ == mem
                    },
                    Err(e) => outcome == Err::<u16, Error>(e),
                }
            }),
    {
        let mut cpu = Cpu::default();
        cpu.pc = start_address;
        let mut memory = Memory::new();
        match memory.load_files(images, start_address) {
            Ok(_) => Ok(Intel8080 { cpu, memory }),
            Err(e) => Err(e),
        }
    }

    /// Fetches and executes an instruction, returning it with the number of states taken.
    ///
    /// # Errors
    ///
    /// [`Error::Halted`] if the CPU is in the halted state; nothing changes then.
    pub fn fetch_execute_instruction(&mut self) -> (r: Result<(Instruction, u32), Error>)
        ensures
            match r {
                Ok((instruction, states)) => {
                    &&& !old(self).cpu.is_halted
                    &&& (instruction[0], instruction[1], instruction[2]) == fetched(
                        old(self).cpu,
                        old(self).memory@,
                    )
                    &&& (final(self).cpu, final(self).memory@, states) == step(
                        old(self).cpu,
                        old(self).memory@,
                    )
                },
                Err(e) => {
                    &&& old(self).cpu.is_halted
                    &&& e == Error::Halted
                    &&& final(self).cpu == old(self).cpu
                    &&& final(self).memory@ == old(self).memory@
                },
            },
    {
        self.cpu.fetch_execute_instruction(&mut self.memory)
    }

    /// Escapes from the halt state, if necessary, and executes `instruction` with further
    /// interrupts disabled.
    ///
    /// # Errors
    ///
    /// [`Error::InterruptNotEnabled`] if interrupts are not enabled; nothing changes then.
    pub fn interrupt(&mut self, instruction: Instruction) -> (r: Result<u32, Error>)
        ensures
            match r {
                Ok(states) => {
                    &&& old(self).cpu.interruptable == Interruptable::Enabled
                    &&& (final(self).cpu, final(self).memory@, states) == interrupted(
                        old(self).cpu,
                        old(self).memory@,
                        instruction[0],
                        instruction[1],
                        instruction[2],
                    )
                },
                Err(e) => {
                    &&& old(self).cpu.interruptable != Interruptable::Enabled
                    &&& e == Error::InterruptNotEnabled
                    &&& final(self).cpu == old(self).cpu
                    &&& final(self).memory@ == old(self).memory@
                },
            },
    {
        self.cpu.interrupt(instruction, &mut self.memory)
    }
}

impl Default for Intel8080 {
    /// A system at reset with a memory of zeros.
    fn default() -> (r: Intel8080)
        ensures
            r.cpu == Cpu::initial(),
            r.memory@ == zeroed(),
    {
        Intel8080 { cpu: Cpu::default(), memory: Memory::new() }
    }
}

} // verus!
