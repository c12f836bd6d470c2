//! The processor: an interpreter that keeps its state in live registers
//! and shadow banks and follows the model of `cpu_state` step by step.

use vstd::prelude::*;
use crate::arm_instructions::{
    arm_condition_passes,
    arm_decode_cond_bits,
    nop,
    ArmInstructionKind,
};
use crate::cpu_state::{
    exception_entered,
    fetch_at,
    is_aligned,
    lemma_enter_mode_keeps_registers,
    lemma_enter_mode_status,
    lemma_flush,
    lemma_raise,
    lemma_status_bit_keeps_coherence,
    lemma_step,
    mode_code,
    CPSRBitsMask,
    CpuState,
    CpuStateMode,
    ExceptionType,
    OperationModes,
    LR,
    MODE_BITS_MASK,
    PC,
    SP,
    PIPELINE_ADVANCE_CYCLES,
    PIPELINE_REFILL_CYCLES,
};
use crate::system_memory::{BusFault, MemoryOperation, SysMem};

verus! {

/// The processor.
pub struct ARM7TDMI {
    gpr: [u32; 16],
    banked_user_sys_regs: [u32; 7],
    banked_fiq_regs: [u32; 7],
    banked_svc_regs: [u32; 2],
    banked_abt_regs: [u32; 2],
    banked_irq_regs: [u32; 2],
    banked_und_regs: [u32; 2],
    cpsr: u32,
    spsr_fiq: u32,
    spsr_svc: u32,
    spsr_abt: u32,
    spsr_irq: u32,
    spsr_und: u32,
    cpu_mode: CpuStateMode,
    operation_mode: OperationModes,
    pipeline: [Option<u32>; 2],
    instruction_cycles: u32,
    irq_pending: bool,
    fiq_pending: bool,
}

impl View for ARM7TDMI {
    type V = CpuState;

    closed spec fn view(&self) -> CpuState {
        CpuState {
            gpr: self.gpr@,
            banked_user_sys_regs: self.banked_user_sys_regs@,
            banked_fiq_regs: self.banked_fiq_regs@,
            banked_svc_regs: self.banked_svc_regs@,
            banked_abt_regs: self.banked_abt_regs@,
            banked_irq_regs: self.banked_irq_regs@,
            banked_und_regs: self.banked_und_regs@,
            cpsr: self.cpsr,
            spsr_fiq: self.spsr_fiq,
            spsr_svc: self.spsr_svc,
            spsr_abt: self.spsr_abt,
            spsr_irq: self.spsr_irq,
            spsr_und: self.spsr_und,
            cpu_mode: self.cpu_mode,
            operation_mode: self.operation_mode,
            pipeline: self.pipeline@,
            instruction_cycles: self.instruction_cycles,
            irq_pending: self.irq_pending,
            fiq_pending: self.fiq_pending,
        }
    }
}

/// Copies `count` registers of `from`, starting at `from_at`, over those
/// of `to` that start at `to_at`.
fn copy_registers<const N: usize, const M: usize>(
    from: &[u32; N],
    from_at: usize,
    to: &mut [u32; M],
    to_at: usize,
    count: usize,
)
    requires
        from_at + count <= N,
        to_at + count <= M,
    ensures
        final(to)@ == old(to)@.subrange(0, to_at as int) + from@.subrange(
            from_at as int,
            from_at + count,
        ) + old(to)@.subrange(to_at + count, M as int),
{
    let mut i: usize = 0;
    while i < count
        invariant
            i <= count,
            from_at + count <= N,
            to_at + count <= M,
            to@.len() == M,
            forall|k: int| 0 <= k < to_at ==> to@[k] == old(to)@[k],
            forall|k: int| to_at + i <= k < M ==> to@[k] == old(to)@[k],
            forall|k: int| to_at <= k < to_at + i ==> to@[k] == from@[k - to_at + from_at],
        decreases count - i,
    {
        to[to_at + i] = from[from_at + i];
        i += 1;
    }
    assert(to@ =~= old(to)@.subrange(0, to_at as int) + from@.subrange(
        from_at as int,
        from_at + count,
    ) + old(to)@.subrange(to_at + count, M as int));
}

impl ARM7TDMI {
    /// A processor with every register zero, in User mode and ARM state,
    /// with an empty pipeline.
    pub fn new() -> (cpu: Self)
        ensures
            cpu@ == CpuState::zeroed(),
    {
        let cpu = ARM7TDMI {
            gpr: [0; 16],
            banked_user_sys_regs: [0; 7],
            banked_fiq_regs: [0; 7],
            banked_svc_regs: [0; 2],
            banked_abt_regs: [0; 2],
            banked_irq_regs: [0; 2],
            banked_und_regs: [0; 2],
            cpsr: 0u32,
            spsr_fiq: 0u32,
            spsr_svc: 0u32,
            spsr_abt: 0u32,
            spsr_irq: 0u32,
            spsr_und: 0u32,
            pipeline: [None; 2],
            cpu_mode: CpuStateMode::ARM,
            operation_mode: OperationModes::User,
            instruction_cycles: 0u32,
            irq_pending: false,
            fiq_pending: false,
        };
        proof {
            let zero = CpuState::zeroed();
            assert(cpu@.gpr =~= zero.gpr);
            assert(cpu@.banked_user_sys_regs =~= zero.banked_user_sys_regs);
            assert(cpu@.banked_fiq_regs =~= zero.banked_fiq_regs);
            assert(cpu@.banked_svc_regs =~= zero.banked_svc_regs);
            assert(cpu@.banked_abt_regs =~= zero.banked_abt_regs);
            assert(cpu@.banked_irq_regs =~= zero.banked_irq_regs);
            assert(cpu@.banked_und_regs =~= zero.banked_und_regs);
            assert(cpu@.pipeline =~= zero.pipeline);
        }
        cpu
    }

    /// The register files of any processor have their sizes.
    pub proof fn lemma_view_wf(&self)
        ensures
            self@.wf(),
    {
    }

    /// The program counter.
    pub fn pc(&self) -> (pc: u32)
        ensures
            pc == self@.pc(),
    {
        self.gpr[PC]
    }

    /// Writes the program counter as it is given: nothing is aligned and
    /// the pipeline is left alone.
    pub fn pc_mut(&mut self, value: u32)
        ensures
            final(self)@ == old(self)@.with_register(PC as int, value),
    {
        self.gpr[PC] = value;
    }

    /// Moves the program counter on by one instruction: by four in ARM
    /// state, by two in Thumb state, modulo 2^32.
    pub fn increment_pc(&mut self)
        ensures
            final(self)@ == old(self)@.increment_pc(),
    {
        if self.cpu_mode == CpuStateMode::ARM {
            self.gpr[PC] = self.gpr[PC].wrapping_add(4);
        } else {
            self.gpr[PC] = self.gpr[PC].wrapping_add(2);
        }
    }

    /// Sets a named bit of the status register. With the T bit the
    /// processor goes to Thumb state.
    pub fn set_cpsr_bit(&mut self, bit_mask: CPSRBitsMask)
        ensures
            final(self)@ == old(self)@.set_bit(bit_mask),
            final(self)@.bit(bit_mask),
            old(self)@.coherent() ==> final(self)@.coherent(),
    {
        proof {
            lemma_status_bit_keeps_coherence(self@, bit_mask);
        }
        self.cpsr |= bit_mask.mask();
        if bit_mask == CPSRBitsMask::T {
            self.cpu_mode = CpuStateMode::THUMB;
        }
    }

    /// Clears a named bit of the status register. With the T bit the
    /// processor goes to ARM state.
    pub fn clear_cpsr_bit(&mut self, bit_mask: CPSRBitsMask)
        ensures
            final(self)@ == old(self)@.clear_bit(bit_mask),
            !final(self)@.bit(bit_mask),
            old(self)@.coherent() ==> final(self)@.coherent(),
    {
        proof {
            lemma_status_bit_keeps_coherence(self@, bit_mask);
        }
        self.cpsr &= !bit_mask.mask();
        if bit_mask == CPSRBitsMask::T {
            self.cpu_mode = CpuStateMode::ARM;
        }
    }

    /// Whether a named bit of the status register is set.
    pub fn get_cpsr_bit(&self, bit_mask: CPSRBitsMask) -> (set: bool)
        ensures
            set == self@.bit(bit_mask),
    {
        (self.cpsr & bit_mask.mask()) != 0
    }

    /// Puts the banked registers of the current mode away.
    fn stash_banked_registers(&mut self)
        ensures
            final(self)@ == old(self)@.stash(),
    {
        match self.operation_mode {
            OperationModes::FIQ => {
                copy_registers(&self.gpr, 8, &mut self.banked_fiq_regs, 0, 7);
            },
            OperationModes::IRQ => {
                copy_registers(&self.gpr, SP, &mut self.banked_irq_regs, 0, 2);
                copy_registers(&self.gpr, 8, &mut self.banked_user_sys_regs, 0, 5);
            },
            OperationModes::Supervisor => {
                copy_registers(&self.gpr, SP, &mut self.banked_svc_regs, 0, 2);
                copy_registers(&self.gpr, 8, &mut self.banked_user_sys_regs, 0, 5);
            },
            OperationModes::Abort => {
                copy_registers(&self.gpr, SP, &mut self.banked_abt_regs, 0, 2);
                copy_registers(&self.gpr, 8, &mut self.banked_user_sys_regs, 0, 5);
            },
            OperationModes::Undefined => {
                copy_registers(&self.gpr, SP, &mut self.banked_und_regs, 0, 2);
                copy_registers(&self.gpr, 8, &mut self.banked_user_sys_regs, 0, 5);
            },
            _ => {
                copy_registers(&self.gpr, 8, &mut self.banked_user_sys_regs, 0, 7);
            },
        }
    }

    /// Takes the banked registers of `mode` out of their shadow.
    fn load_banked_registers(&mut self, mode: OperationModes)
        ensures
            final(self)@ == old(self)@.load(mode),
    {
        match mode {
            OperationModes::FIQ => {
                copy_registers(&self.banked_fiq_regs, 0, &mut self.gpr, 8, 7);
            },
            OperationModes::IRQ => {
                copy_registers(&self.banked_user_sys_regs, 0, &mut self.gpr, 8, 5);
                copy_registers(&self.banked_irq_regs, 0, &mut self.gpr, SP, 2);
            },
            OperationModes::Supervisor => {
                copy_registers(&self.banked_user_sys_regs, 0, &mut self.gpr, 8, 5);
                copy_registers(&self.banked_svc_regs, 0, &mut self.gpr, SP, 2);
            },
            OperationModes::Abort => {
                copy_registers(&self.banked_user_sys_regs, 0, &mut self.gpr, 8, 5);
                copy_registers(&self.banked_abt_regs, 0, &mut self.gpr, SP, 2);
            },
            OperationModes::Undefined => {
                copy_registers(&self.banked_user_sys_regs, 0, &mut self.gpr, 8, 5);
                copy_registers(&self.banked_und_regs, 0, &mut self.gpr, SP, 2);
            },
            _ => {
                copy_registers(&self.banked_user_sys_regs, 0, &mut self.gpr, 8, 7);
            },
        }
        proof {
            assert(self@.gpr =~= old(self)@.load(mode).gpr);
        }
    }

    /// Switches to `new_mode`: the banked registers of the mode that is
    /// left are put away, those of the new mode are taken out, and the
    /// mode bits of the status register get the new mode's code. No
    /// saved status register changes.
    ///
    /// Afterwards the mode bits of the status register name the new mode,
    /// and every register of every mode is what it was before; a
    /// coherent state stays coherent, and an aligned one aligned.
    pub fn enter_operation_mode(&mut self, new_mode: OperationModes)
        ensures
            final(self)@ == old(self)@.enter_mode(new_mode),
            final(self)@.operation_mode == new_mode,
            final(self)@.cpsr & MODE_BITS_MASK == mode_code(new_mode),
            forall|seen_by: OperationModes, r: int|
                0 <= r < 16 ==> #[trigger] final(self)@.reg(seen_by, r) == old(self)@.reg(
                    seen_by,
                    r,
                ),
            old(self)@.coherent() ==> final(self)@.coherent(),
            old(self)@.inv() ==> final(self)@.inv(),
    {
        proof {
            lemma_enter_mode_status(self@, new_mode);
            assert forall|seen_by: OperationModes, r: int| 0 <= r < 16 implies #[trigger] self@
                .enter_mode(new_mode).reg(seen_by, r) == self@.reg(seen_by, r) by {
                lemma_enter_mode_keeps_registers(self@, new_mode, seen_by, r);
            }
        }
        if new_mode != self.operation_mode {
            self.stash_banked_registers();
            self.load_banked_registers(new_mode);
        }
        self.cpsr = (self.cpsr & !MODE_BITS_MASK) | new_mode.code();
        self.operation_mode = new_mode;
    }

    /// Fetches the instruction at `address`: a word in ARM state, a
    /// half-word in Thumb state.
    fn fetch(&self, sys_mem: &SysMem, address: u32) -> (r: Result<u32, BusFault>)
        ensures
            r == fetch_at(self@.cpu_mode, sys_mem@, address),
    {
        if self.cpu_mode == CpuStateMode::ARM {
            sys_mem.read32(address)
        } else {
            match sys_mem.read16(address) {
                Ok(half) => Ok(half as u32),
                Err(fault) => Err(fault),
            }
        }
    }

    /// Fills the pipeline anew from the program counter, or leaves the
    /// processor as it is where one of the two fetches faults.
    fn refill_pipeline(&mut self, sys_mem: &SysMem) -> (r: Result<(), BusFault>)
        ensures
            match old(self)@.refill(sys_mem@) {
                Ok(filled) => r is Ok && final(self)@ == filled,
                Err(fault) => r == Err::<(), BusFault>(fault) && final(self)@ == old(self)@,
            },
    {
        let width: u32 = if self.cpu_mode == CpuStateMode::ARM {
            4
        } else {
            2
        };
        let first_at: u32 = if self.cpu_mode == CpuStateMode::ARM {
            self.gpr[PC] & 0xFFFF_FFFC
        } else {
            self.gpr[PC] & 0xFFFF_FFFE
        };
        let second_at: u32 = first_at.wrapping_add(width);
        let first = match self.fetch(sys_mem, first_at) {
            Ok(first) => first,
            Err(fault) => {
                return Err(fault);
            },
        };
        let second = match self.fetch(sys_mem, second_at) {
            Ok(second) => second,
            Err(fault) => {
                return Err(fault);
            },
        };
        self.pipeline[0] = Some(first);
        self.pipeline[1] = Some(second);
        self.gpr[PC] = second_at.wrapping_add(width);
        proof {
            assert(self@.pipeline =~= seq![Some(first), Some(second)]);
        }
        Ok(())
    }

    /// Writes the saved status register of `mode`, where it has one.
    fn set_spsr(&mut self, mode: OperationModes, value: u32)
        ensures
            final(self)@ == old(self)@.with_spsr(mode, value),
    {
        match mode {
            OperationModes::FIQ => {
                self.spsr_fiq = value;
            },
            OperationModes::IRQ => {
                self.spsr_irq = value;
            },
            OperationModes::Supervisor => {
                self.spsr_svc = value;
            },
            OperationModes::Abort => {
                self.spsr_abt = value;
            },
            OperationModes::Undefined => {
                self.spsr_und = value;
            },
            _ => {},
        }
    }

    /// The address that an entry into `exception` would leave in the
    /// link register.
    fn return_address(&self, exception: ExceptionType) -> (address: u32)
        ensures
            address == self@.return_address(exception),
    {
        let width: u32 = if self.cpu_mode == CpuStateMode::ARM {
            4
        } else {
            2
        };
        let pc: u32 = self.gpr[PC];
        let head: u32 = pc.wrapping_sub(width).wrapping_sub(width);
        match exception {
            ExceptionType::Reset => pc,
            ExceptionType::UndefinedInstruction => head,
            ExceptionType::SoftwareInterrupt => head,
            ExceptionType::PrefetchAbort => head.wrapping_add(4),
            ExceptionType::DataAbort => pc,
            ExceptionType::AddressExceeds => pc,
            ExceptionType::NormalInterrupt => head,
            ExceptionType::FastInterrupt => head,
        }
    }

    /// Enters an exception: computes the return address, enters the mode
    /// of the exception, saves the status register for that mode, puts
    /// the return address into the link register, disables interrupts,
    /// goes to ARM state, and goes on at the vector with a pipeline
    /// filled from there.
    ///
    /// Whatever the state was before, it is coherent and aligned
    /// afterwards, and both slots of the pipeline are filled.
    pub fn arise_exception(&mut self, exception: ExceptionType, sys_mem: &mut SysMem)
        ensures
            final(self)@ == old(self)@.raise(exception, old(sys_mem)@),
            exception_entered(old(self)@, exception, old(sys_mem)@, final(self)@),
            final(self)@.inv(),
            final(self)@.pipeline_full(),
            *final(sys_mem) == *old(sys_mem),
    {
        let return_address = self.return_address(exception);
        let saved = self.cpsr;
        let target = exception.mode();
        self.enter_operation_mode(target);
        self.set_spsr(target, saved);
        self.gpr[LR] = return_address;
        self.set_cpsr_bit(CPSRBitsMask::I);
        match exception {
            ExceptionType::Reset => {
                self.set_cpsr_bit(CPSRBitsMask::F);
            },
            ExceptionType::FastInterrupt => {
                self.set_cpsr_bit(CPSRBitsMask::F);
            },
            _ => {},
        }
        self.clear_cpsr_bit(CPSRBitsMask::T);
        self.gpr[PC] = exception.vector();
        let _ = self.refill_pipeline(sys_mem);
        proof {
            reveal(CpuState::raise);
            lemma_raise(old(self)@, exception, sys_mem@);
        }
    }

    /// Brings the processor into the state in which it starts to run:
    /// the reset exception is entered, which leaves it in Supervisor mode
    /// and ARM state with all interrupts disabled, and the pipeline is
    /// filled from address 0.
    pub fn reset(&mut self, sys_mem: &mut SysMem)
        ensures
            final(self)@ == old(self)@.raise(ExceptionType::Reset, old(sys_mem)@),
            exception_entered(old(self)@, ExceptionType::Reset, old(sys_mem)@, final(self)@),
            final(self)@.inv(),
            final(self)@.pipeline_full(),
            *final(sys_mem) == *old(sys_mem),
    {
        self.arise_exception(ExceptionType::Reset, sys_mem);
    }

    /// Throws away what the pipeline holds and fills it from the program
    /// counter, which is aligned first and ends two instructions beyond
    /// its place. Where a fetch faults, the address-exceeds exception is
    /// entered instead.
    ///
    /// Afterwards both slots are filled and the program counter is
    /// aligned, and a coherent state is still coherent.
    pub fn flush_pipeline(&mut self, sys_mem: &mut SysMem)
        ensures
            final(self)@ == old(self)@.flush(old(sys_mem)@),
            final(self)@.pipeline_full(),
            is_aligned(final(self)@.cpu_mode, final(self)@.pc()),
            old(self)@.coherent() ==> final(self)@.inv(),
            *final(sys_mem) == *old(sys_mem),
    {
        proof {
            lemma_flush(self@, sys_mem@);
        }
        match self.refill_pipeline(sys_mem) {
            Ok(()) => {},
            Err(_) => {
                self.arise_exception(ExceptionType::AddressExceeds, sys_mem);
            },
        }
    }

    /// Asks for a normal interrupt: it is taken before the next
    /// instruction that starts while the I bit is clear.
    pub fn request_irq(&mut self)
        ensures
            final(self)@ == (CpuState { irq_pending: true, ..old(self)@ }),
    {
        self.irq_pending = true;
    }

    /// Asks for a fast interrupt: it is taken before the next instruction
    /// that starts while the F bit is clear.
    pub fn request_fiq(&mut self)
        ensures
            final(self)@ == (CpuState { fiq_pending: true, ..old(self)@ }),
    {
        self.fiq_pending = true;
    }

    /// Takes the interrupt that is due, if any, and says whether one was
    /// taken.
    fn take_interrupt(&mut self, sys_mem: &mut SysMem) -> (taken: bool)
        ensures
            final(self)@ == old(self)@.take_interrupt(old(sys_mem)@),
            taken == old(self)@.interrupt_due() is Some,
            taken ==> final(self)@.pipeline_full(),
            *final(sys_mem) == *old(sys_mem),
    {
        if self.fiq_pending && !self.get_cpsr_bit(CPSRBitsMask::F) {
            self.fiq_pending = false;
            self.arise_exception(ExceptionType::FastInterrupt, sys_mem);
            true
        } else if self.irq_pending && !self.get_cpsr_bit(CPSRBitsMask::I) {
            self.irq_pending = false;
            self.arise_exception(ExceptionType::NormalInterrupt, sys_mem);
            true
        } else {
            false
        }
    }

    /// The software interrupt: enters its exception.
    fn swi(&mut self, instruction: u32, sys_mem: &mut SysMem) -> (cycles: u32)
        ensures
            final(self)@ == old(self)@.raise(ExceptionType::SoftwareInterrupt, old(sys_mem)@),
            final(self)@.inv(),
            final(self)@.pipeline_full(),
            cycles == PIPELINE_REFILL_CYCLES,
            *final(sys_mem) == *old(sys_mem),
    {
        self.arise_exception(ExceptionType::SoftwareInterrupt, sys_mem);
        PIPELINE_REFILL_CYCLES
    }

    /// An opcode that stands for no instruction: enters the
    /// undefined-instruction exception.
    fn undef_dataproc(&mut self, instruction: u32, sys_mem: &mut SysMem) -> (cycles: u32)
        ensures
            final(self)@ == old(self)@.raise(ExceptionType::UndefinedInstruction, old(sys_mem)@),
            final(self)@.inv(),
            final(self)@.pipeline_full(),
            cycles == PIPELINE_REFILL_CYCLES,
            *final(sys_mem) == *old(sys_mem),
    {
        self.arise_exception(ExceptionType::UndefinedInstruction, sys_mem);
        PIPELINE_REFILL_CYCLES
    }

    /// Executes an instruction of the family `kind` and gives the cycles
    /// that it took on top of the advance of the pipeline.
    fn execute(
        &mut self,
        kind: ArmInstructionKind,
        instruction: u32,
        sys_mem: &mut SysMem,
    ) -> (cycles: u32)
        ensures
            (final(self)@, cycles) == old(self)@.execute(kind, old(sys_mem)@),
            old(self)@.pipeline_full() ==> final(self)@.pipeline_full(),
            *final(sys_mem) == *old(sys_mem),
    {
        match kind {
            ArmInstructionKind::Swi => self.swi(instruction, sys_mem),
            ArmInstructionKind::UndefDataproc => self.undef_dataproc(instruction, sys_mem),
            ArmInstructionKind::Undefined => self.undef_dataproc(instruction, sys_mem),
            _ => {
                nop(instruction, sys_mem);
                0
            },
        }
    }

    /// Runs one step: takes the interrupt that is due, takes the
    /// instruction out of the first slot of the pipeline, fetches the
    /// next one, and executes the instruction if it is an ARM instruction
    /// whose condition the flags meet. Gives the cycles that the step
    /// took, which the cycle counter holds as well.
    ///
    /// Every step ends with a full pipeline, and a step from a coherent
    /// and aligned state ends in one.
    #[verifier::rlimit(30)]
    pub fn run_instruction(&mut self, sys_mem: &mut SysMem) -> (cycles: u8)
        requires
            old(self)@.pipeline_full(),
        ensures
            final(self)@ == old(self)@.step(old(sys_mem)@),
            cycles == old(self)@.step_cycles(old(sys_mem)@),
            1 <= cycles <= 5,
            final(self)@.pipeline_full(),
            old(self)@.inv() ==> final(self)@.inv(),
            *final(sys_mem) == *old(sys_mem),
    {
        proof {
            reveal(CpuState::step);
            reveal(CpuState::step_cycles);
            reveal(CpuState::run);
            if self@.inv() {
                lemma_step(self@, sys_mem@);
            }
        }
        let mut cycles: u32 = PIPELINE_ADVANCE_CYCLES;
        if self.take_interrupt(sys_mem) {
            cycles += PIPELINE_REFILL_CYCLES;
        }
        let ghost ready = self@;
        let opcode: u32 = self.pipeline[0].unwrap();
        match self.fetch(sys_mem, self.gpr[PC]) {
            Err(_) => {
                self.arise_exception(ExceptionType::AddressExceeds, sys_mem);
                cycles += PIPELINE_REFILL_CYCLES;
            },
            Ok(fetched) => {
                self.pipeline[0] = self.pipeline[1];
                self.pipeline[1] = Some(fetched);
                self.increment_pc();
                proof {
                    assert(self@.pipeline =~= seq![ready.pipeline[1], Some(fetched)]);
                }
                if self.cpu_mode == CpuStateMode::ARM {
                    let cond = arm_decode_cond_bits(opcode);
                    if cond == 0xF {
                        self.arise_exception(ExceptionType::UndefinedInstruction, sys_mem);
                        cycles += PIPELINE_REFILL_CYCLES;
                    } else if arm_condition_passes(cond, self.cpsr) {
                        let kind = self.decode_arm_instruction(opcode);
                        cycles += self.execute(kind, opcode, sys_mem);
                    }
                }
            },
        }
        self.instruction_cycles = cycles;
        cycles as u8
    }

    /// Register `r` as the current mode sees it.
    pub fn register(&self, r: usize) -> (value: u32)
        requires
            r < 16,
        ensures
            value == self@.gpr[r as int],
            value == self@.reg(self@.operation_mode, r as int),
    {
        self.gpr[r]
    }

    /// Writes register `r` of the current mode as it is given. A write
    /// to R15 aligns nothing and leaves the pipeline alone.
    pub fn set_register(&mut self, r: usize, value: u32)
        requires
            r < 16,
        ensures
            final(self)@ == old(self)@.with_register(r as int, value),
    {
        self.gpr[r] = value;
    }

    /// Register `r` as `mode` sees it, whatever mode the processor is in.
    pub fn banked_register(&self, mode: OperationModes, r: usize) -> (value: u32)
        requires
            r < 16,
        ensures
            value == self@.reg(mode, r as int),
    {
        let current = self.operation_mode;
        if r < 8 || r == PC {
            self.gpr[r]
        } else if r < SP {
            if (mode == OperationModes::FIQ) == (current == OperationModes::FIQ) {
                self.gpr[r]
            } else if mode == OperationModes::FIQ {
                self.banked_fiq_regs[r - 8]
            } else {
                self.banked_user_sys_regs[r - 8]
            }
        } else if mode == current || ((mode == OperationModes::User || mode
            == OperationModes::System) && (current == OperationModes::User || current
            == OperationModes::System)) {
            self.gpr[r]
        } else {
            match mode {
                OperationModes::FIQ => self.banked_fiq_regs[r - 8],
                OperationModes::IRQ => self.banked_irq_regs[r - SP],
                OperationModes::Supervisor => self.banked_svc_regs[r - SP],
                OperationModes::Abort => self.banked_abt_regs[r - SP],
                OperationModes::Undefined => self.banked_und_regs[r - SP],
                _ => self.banked_user_sys_regs[r - 8],
            }
        }
    }

    /// The status register.
    pub fn cpsr(&self) -> (value: u32)
        ensures
            value == self@.cpsr,
    {
        self.cpsr
    }

    /// The saved status register of `mode`; User and System have none.
    pub fn spsr(&self, mode: OperationModes) -> (value: Option<u32>)
        ensures
            value == self@.spsr(mode),
    {
        match mode {
            OperationModes::FIQ => Some(self.spsr_fiq),
            OperationModes::IRQ => Some(self.spsr_irq),
            OperationModes::Supervisor => Some(self.spsr_svc),
            OperationModes::Abort => Some(self.spsr_abt),
            OperationModes::Undefined => Some(self.spsr_und),
            _ => None,
        }
    }

    /// The instruction set that is being executed.
    pub fn cpu_state_mode(&self) -> (mode: CpuStateMode)
        ensures
            mode == self@.cpu_mode,
    {
        self.cpu_mode
    }

    /// The operation mode.
    pub fn operation_mode(&self) -> (mode: OperationModes)
        ensures
            mode == self@.operation_mode,
    {
        self.operation_mode
    }

    /// What a slot of the pipeline holds: slot 0 is the instruction that
    /// the next step runs, slot 1 the one behind it.
    pub fn pipeline_slot(&self, slot: usize) -> (opcode: Option<u32>)
        requires
            slot < 2,
        ensures
            opcode == self@.pipeline[slot as int],
    {
        self.pipeline[slot]
    }

    /// Whether a normal interrupt is asked for and not yet taken.
    pub fn irq_pending(&self) -> (pending: bool)
        ensures
            pending == self@.irq_pending,
    {
        self.irq_pending
    }

    /// Whether a fast interrupt is asked for and not yet taken.
    pub fn fiq_pending(&self) -> (pending: bool)
        ensures
            pending == self@.fiq_pending,
    {
        self.fiq_pending
    }

    /// The cycles that the last step took.
    pub fn instruction_cycles(&self) -> (cycles: u32)
        ensures
            cycles == self@.instruction_cycles,
    {
        self.instruction_cycles
    }
}

} // verus!
