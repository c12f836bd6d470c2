//! The console: a processor and its memory, run frame by frame.

use vstd::prelude::*;
use crate::arm7tdmi::ARM7TDMI;
use crate::cpu_state::{lemma_step_cycles, CpuState, ExceptionType};
use crate::system_memory::{MemoryImage, SysMem};

verus! {

/// The cycles that the processor runs in one frame.
pub const CYCLES_PER_FRAME: u32 = 280_896;

/// The cycles of a frame that are left once `spent` are used up.
pub open spec fn cycles_left(spent: nat) -> nat {
    if spent >= CYCLES_PER_FRAME {
        0
    } else {
        (CYCLES_PER_FRAME - spent) as nat
    }
}

/// The state of the processor at the end of a frame of which `spent`
/// cycles are used up: the state itself once the budget of a frame is
/// reached, else the end of the frame that goes on after one more step.
pub open spec fn end_of_frame(cpu: CpuState, mem: MemoryImage, spent: nat) -> CpuState
    decreases cycles_left(spent),
{
    if spent >= CYCLES_PER_FRAME {
        cpu
    } else {
        proof {
            lemma_step_cycles(cpu, mem);
        }
        end_of_frame(cpu.step(mem), mem, spent + cpu.step_cycles(mem) as nat)
    }
}

/// The console.
pub struct GBA {
    sys_mem: Box<SysMem>,
    cpu: Box<ARM7TDMI>,
}

impl GBA {
    /// The state of the processor.
    pub closed spec fn cpu_state(&self) -> CpuState {
        self.cpu@
    }

    /// The contents of the memory.
    pub closed spec fn memory(&self) -> MemoryImage {
        self.sys_mem@
    }

    /// The processor is ready to run: its state is coherent and aligned
    /// and its pipeline is full.
    pub open spec fn wf(&self) -> bool {
        self.cpu_state().inv() && self.cpu_state().pipeline_full()
    }

    /// A console that was just switched on: the memory is zero and the
    /// processor has gone through its reset.
    pub fn new() -> (gba: GBA)
        ensures
            gba.memory() == MemoryImage::zeroed(),
            gba.cpu_state() == CpuState::zeroed().raise(
                ExceptionType::Reset,
                MemoryImage::zeroed(),
            ),
            gba.wf(),
    {
        let mut sys_mem = Box::new(SysMem::new());
        let mut cpu = Box::new(ARM7TDMI::new());
        cpu.reset(&mut sys_mem);
        GBA { sys_mem, cpu }
    }

    /// The processor.
    pub fn cpu(&self) -> (cpu: &ARM7TDMI)
        ensures
            cpu@ == self.cpu_state(),
    {
        &*self.cpu
    }

    /// The memory.
    pub fn sys_mem(&self) -> (sys_mem: &SysMem)
        ensures
            sys_mem@ == self.memory(),
    {
        &*self.sys_mem
    }

    /// Runs the processor for one frame: step after step until the
    /// cycles of the steps add up to the budget of a frame or more.
    pub fn run_frame(&mut self)
        requires
            old(self).wf(),
        ensures
            final(self).cpu_state() == end_of_frame(old(self).cpu_state(), old(self).memory(), 0),
            final(self).memory() == old(self).memory(),
            final(self).wf(),
    {
        let mut total_cycles: u32 = 0;
        while total_cycles < CYCLES_PER_FRAME
            invariant
                self.wf(),
                self.memory() == old(self).memory(),
                total_cycles < CYCLES_PER_FRAME + 5,
                end_of_frame(self.cpu_state(), self.memory(), total_cycles as nat) == end_of_frame(
                    old(self).cpu_state(),
                    old(self).memory(),
                    0,
                ),
            decreases cycles_left(total_cycles as nat),
        {
            proof {
                lemma_step_cycles(self.cpu_state(), self.memory());
            }
            let instruction_executed_cycles: u8 = self.cpu.run_instruction(&mut self.sys_mem);
            total_cycles += instruction_executed_cycles as u32;
        }
    }
}

} // verus!
