//! The model of the processor: what its state holds, how mode switches,
//! exceptions and steps change it, and the laws that hold of these
//! changes.

use vstd::prelude::*;
use crate::arm_instructions::{cond_bits, condition_holds, decode, ArmInstructionKind};
use crate::system_memory::{lemma_bios_reads_zero, load16, load32, BusFault, MemoryImage};

verus! {

/// The index of the stack pointer among the general registers.
pub const SP: usize = 13;

/// The index of the link register.
pub const LR: usize = 14;

/// The index of the program counter.
pub const PC: usize = 15;

/// The bits of a status register that hold the operation mode.
pub const MODE_BITS_MASK: u32 = 0x0000_001F;

/// The vector of each exception, in the order of `ExceptionType`.
pub const EXCEPTIONS_HANDLERS_ADDRESSES: [u32; 8] = [
    0x0000_0000,
    0x0000_0004,
    0x0000_0008,
    0x0000_000C,
    0x0000_0010,
    0x0000_0014,
    0x0000_0018,
    0x0000_001C,
];

/// What every step costs: the pipeline moves on by one instruction.
pub const PIPELINE_ADVANCE_CYCLES: u32 = 1;

/// What an entry into an exception costs on top: the pipeline is filled
/// anew with two fetches.
pub const PIPELINE_REFILL_CYCLES: u32 = 2;

/// The instruction set that the processor executes.
#[derive(Clone, Copy, Debug, PartialEq, Eq, Structural)]
pub enum CpuStateMode {
    ARM,
    THUMB,
}

/// The operation modes.
#[derive(Clone, Copy, Debug, PartialEq, Eq, Structural)]
pub enum OperationModes {
    User,
    FIQ,
    IRQ,
    Supervisor,
    Abort,
    Undefined,
    System,
}

/// The bits of the status register that have a name.
#[derive(Clone, Copy, Debug, PartialEq, Eq, Structural)]
pub enum CPSRBitsMask {
    N,
    Z,
    C,
    V,
    I,
    F,
    T,
}

/// The exceptions.
#[derive(Clone, Copy, Debug, PartialEq, Eq, Structural)]
pub enum ExceptionType {
    Reset,
    UndefinedInstruction,
    SoftwareInterrupt,
    PrefetchAbort,
    DataAbort,
    AddressExceeds,
    NormalInterrupt,
    FastInterrupt,
}

/// The five-bit code of a mode in a status register.
pub open spec fn mode_code(mode: OperationModes) -> u32 {
    match mode {
        OperationModes::User => 0x10,
        OperationModes::FIQ => 0x11,
        OperationModes::IRQ => 0x12,
        OperationModes::Supervisor => 0x13,
        OperationModes::Abort => 0x17,
        OperationModes::Undefined => 0x1B,
        OperationModes::System => 0x1F,
    }
}

/// The place of a named bit in a status register.
pub open spec fn bit_mask(bit: CPSRBitsMask) -> u32 {
    match bit {
        CPSRBitsMask::N => 0x8000_0000,
        CPSRBitsMask::Z => 0x4000_0000,
        CPSRBitsMask::C => 0x2000_0000,
        CPSRBitsMask::V => 0x1000_0000,
        CPSRBitsMask::I => 0x0000_0080,
        CPSRBitsMask::F => 0x0000_0040,
        CPSRBitsMask::T => 0x0000_0020,
    }
}

/// The address at which execution goes on after an exception.
pub open spec fn exception_vector(exception: ExceptionType) -> u32 {
    match exception {
        ExceptionType::Reset => 0x00,
        ExceptionType::UndefinedInstruction => 0x04,
        ExceptionType::SoftwareInterrupt => 0x08,
        ExceptionType::PrefetchAbort => 0x0C,
        ExceptionType::DataAbort => 0x10,
        ExceptionType::AddressExceeds => 0x14,
        ExceptionType::NormalInterrupt => 0x18,
        ExceptionType::FastInterrupt => 0x1C,
    }
}

/// The mode in which an exception is handled.
pub open spec fn exception_mode(exception: ExceptionType) -> OperationModes {
    match exception {
        ExceptionType::Reset => OperationModes::Supervisor,
        ExceptionType::UndefinedInstruction => OperationModes::Undefined,
        ExceptionType::SoftwareInterrupt => OperationModes::Supervisor,
        ExceptionType::PrefetchAbort => OperationModes::Abort,
        ExceptionType::DataAbort => OperationModes::Abort,
        ExceptionType::AddressExceeds => OperationModes::Supervisor,
        ExceptionType::NormalInterrupt => OperationModes::IRQ,
        ExceptionType::FastInterrupt => OperationModes::FIQ,
    }
}

/// Whether an exception disables fast interrupts as well as normal ones.
pub open spec fn exception_masks_fiq(exception: ExceptionType) -> bool {
    exception == ExceptionType::Reset || exception == ExceptionType::FastInterrupt
}

/// Whether two modes see the same R13 and R14: a mode and itself, and
/// User and System.
pub open spec fn same_bank(a: OperationModes, b: OperationModes) -> bool {
    a == b || ((a == OperationModes::User || a == OperationModes::System) && (b
        == OperationModes::User || b == OperationModes::System))
}

/// The width of an instruction in bytes.
pub open spec fn instruction_width(cpu_mode: CpuStateMode) -> u32 {
    match cpu_mode {
        CpuStateMode::ARM => 4,
        CpuStateMode::THUMB => 2,
    }
}

impl OperationModes {
    pub fn code(self) -> (code: u32)
        ensures
            code == mode_code(self),
    {
        match self {
            OperationModes::User => 0x10,
            OperationModes::FIQ => 0x11,
            OperationModes::IRQ => 0x12,
            OperationModes::Supervisor => 0x13,
            OperationModes::Abort => 0x17,
            OperationModes::Undefined => 0x1B,
            OperationModes::System => 0x1F,
        }
    }
}

impl CPSRBitsMask {
    pub fn mask(self) -> (mask: u32)
        ensures
            mask == bit_mask(self),
    {
        match self {
            CPSRBitsMask::N => 0x8000_0000,
            CPSRBitsMask::Z => 0x4000_0000,
            CPSRBitsMask::C => 0x2000_0000,
            CPSRBitsMask::V => 0x1000_0000,
            CPSRBitsMask::I => 0x0000_0080,
            CPSRBitsMask::F => 0x0000_0040,
            CPSRBitsMask::T => 0x0000_0020,
        }
    }
}

impl ExceptionType {
    /// The place of the exception in the vector table.
    pub fn index(self) -> (index: usize)
        ensures
            index < 8,
            EXCEPTIONS_HANDLERS_ADDRESSES@[index as int] == exception_vector(self),
    {
        match self {
            ExceptionType::Reset => 0,
            ExceptionType::UndefinedInstruction => 1,
            ExceptionType::SoftwareInterrupt => 2,
            ExceptionType::PrefetchAbort => 3,
            ExceptionType::DataAbort => 4,
            ExceptionType::AddressExceeds => 5,
            ExceptionType::NormalInterrupt => 6,
            ExceptionType::FastInterrupt => 7,
        }
    }

    pub fn vector(self) -> (address: u32)
        ensures
            address == exception_vector(self),
    {
        EXCEPTIONS_HANDLERS_ADDRESSES[self.index()]
    }

    pub fn mode(self) -> (mode: OperationModes)
        ensures
            mode == exception_mode(self),
    {
        match self {
            ExceptionType::Reset => OperationModes::Supervisor,
            ExceptionType::UndefinedInstruction => OperationModes::Undefined,
            ExceptionType::SoftwareInterrupt => OperationModes::Supervisor,
            ExceptionType::PrefetchAbort => OperationModes::Abort,
            ExceptionType::DataAbort => OperationModes::Abort,
            ExceptionType::AddressExceeds => OperationModes::Supervisor,
            ExceptionType::NormalInterrupt => OperationModes::IRQ,
            ExceptionType::FastInterrupt => OperationModes::FIQ,
        }
    }
}

/// The state of the processor.
///
/// `gpr` holds the sixteen registers that the current mode sees. The
/// registers of the other modes wait in the shadows: `banked_fiq_regs`
/// and `banked_user_sys_regs` stand for R8 to R14, the four others for
/// R13 and R14. The shadow of the bank that is live in `gpr` holds
/// nothing of meaning.
pub struct CpuState {
    /// R0 to R15 of the current mode.
    pub gpr: Seq<u32>,
    /// R8 to R14 of User and System.
    pub banked_user_sys_regs: Seq<u32>,
    /// R8 to R14 of FIQ.
    pub banked_fiq_regs: Seq<u32>,
    /// R13 and R14 of Supervisor.
    pub banked_svc_regs: Seq<u32>,
    /// R13 and R14 of Abort.
    pub banked_abt_regs: Seq<u32>,
    /// R13 and R14 of IRQ.
    pub banked_irq_regs: Seq<u32>,
    /// R13 and R14 of Undefined.
    pub banked_und_regs: Seq<u32>,
    /// The status register: the flags N, Z, C and V in bits 31 to 28, the
    /// interrupt masks I and F in bits 7 and 6, the T bit in bit 5, and
    /// the mode in bits 4 to 0.
    pub cpsr: u32,
    pub spsr_fiq: u32,
    pub spsr_svc: u32,
    pub spsr_abt: u32,
    pub spsr_irq: u32,
    pub spsr_und: u32,
    /// The instruction set that is executed.
    pub cpu_mode: CpuStateMode,
    /// The operation mode.
    pub operation_mode: OperationModes,
    /// The instructions that are fetched and not yet executed: slot 0 is
    /// the next to run, slot 1 the one behind it.
    pub pipeline: Seq<Option<u32>>,
    /// The cycles that the last step took.
    pub instruction_cycles: u32,
    /// A normal interrupt is asked for and not yet taken.
    pub irq_pending: bool,
    /// A fast interrupt is asked for and not yet taken.
    pub fiq_pending: bool,
}

impl CpuState {
    /// Every register file has its size.
    pub open spec fn wf(self) -> bool {
        &&& self.gpr.len() == 16
        &&& self.banked_user_sys_regs.len() == 7
        &&& self.banked_fiq_regs.len() == 7
        &&& self.banked_svc_regs.len() == 2
        &&& self.banked_abt_regs.len() == 2
        &&& self.banked_irq_regs.len() == 2
        &&& self.banked_und_regs.len() == 2
        &&& self.pipeline.len() == 2
    }

    /// The state of a processor that was just made: every register zero,
    /// User mode, ARM state, an empty pipeline, no interrupt pending.
    pub open spec fn zeroed() -> CpuState {
        CpuState {
            gpr: Seq::new(16, |i: int| 0u32),
            banked_user_sys_regs: Seq::new(7, |i: int| 0u32),
            banked_fiq_regs: Seq::new(7, |i: int| 0u32),
            banked_svc_regs: Seq::new(2, |i: int| 0u32),
            banked_abt_regs: Seq::new(2, |i: int| 0u32),
            banked_irq_regs: Seq::new(2, |i: int| 0u32),
            banked_und_regs: Seq::new(2, |i: int| 0u32),
            cpsr: 0,
            spsr_fiq: 0,
            spsr_svc: 0,
            spsr_abt: 0,
            spsr_irq: 0,
            spsr_und: 0,
            cpu_mode: CpuStateMode::ARM,
            operation_mode: OperationModes::User,
            pipeline: Seq::new(2, |i: int| None::<u32>),
            instruction_cycles: 0,
            irq_pending: false,
            fiq_pending: false,
        }
    }

    /// The program counter.
    pub open spec fn pc(self) -> u32 {
        self.gpr[PC as int]
    }

    /// The width of the instructions that are being executed.
    pub open spec fn width(self) -> u32 {
        instruction_width(self.cpu_mode)
    }

    /// Whether a named bit of the status register is set.
    pub open spec fn bit(self, bit: CPSRBitsMask) -> bool {
        self.cpsr & bit_mask(bit) != 0
    }

    /// Register `r` as `mode` sees it, whatever mode the processor is in.
    ///
    /// R0 to R7 and R15 are the same in every mode. FIQ has R8 to R12 of
    /// its own; the other modes share one set of them. Each mode has R13
    /// and R14 of its own, but for User and System, which share theirs.
    pub open spec fn reg(self, mode: OperationModes, r: int) -> u32 {
        let current = self.operation_mode;
        if r < 8 || r == 15 {
            self.gpr[r]
        } else if r < 13 {
            if (mode == OperationModes::FIQ) == (current == OperationModes::FIQ) {
                self.gpr[r]
            } else if mode == OperationModes::FIQ {
                self.banked_fiq_regs[r - 8]
            } else {
                self.banked_user_sys_regs[r - 8]
            }
        } else if same_bank(mode, current) {
            self.gpr[r]
        } else {
            match mode {
                OperationModes::User => self.banked_user_sys_regs[r - 8],
                OperationModes::System => self.banked_user_sys_regs[r - 8],
                OperationModes::FIQ => self.banked_fiq_regs[r - 8],
                OperationModes::IRQ => self.banked_irq_regs[r - 13],
                OperationModes::Supervisor => self.banked_svc_regs[r - 13],
                OperationModes::Abort => self.banked_abt_regs[r - 13],
                OperationModes::Undefined => self.banked_und_regs[r - 13],
            }
        }
    }

    /// The saved status register of a mode. User and System have none.
    pub open spec fn spsr(self, mode: OperationModes) -> Option<u32> {
        match mode {
            OperationModes::User => None,
            OperationModes::System => None,
            OperationModes::FIQ => Some(self.spsr_fiq),
            OperationModes::IRQ => Some(self.spsr_irq),
            OperationModes::Supervisor => Some(self.spsr_svc),
            OperationModes::Abort => Some(self.spsr_abt),
            OperationModes::Undefined => Some(self.spsr_und),
        }
    }

    /// The state with `value` in the saved status register of `mode`;
    /// the same state where the mode has none.
    pub open spec fn with_spsr(self, mode: OperationModes, value: u32) -> CpuState {
        match mode {
            OperationModes::User => self,
            OperationModes::System => self,
            OperationModes::FIQ => CpuState { spsr_fiq: value, ..self },
            OperationModes::IRQ => CpuState { spsr_irq: value, ..self },
            OperationModes::Supervisor => CpuState { spsr_svc: value, ..self },
            OperationModes::Abort => CpuState { spsr_abt: value, ..self },
            OperationModes::Undefined => CpuState { spsr_und: value, ..self },
        }
    }

    /// The state with `value` in register `r` of the current mode.
    pub open spec fn with_register(self, r: int, value: u32) -> CpuState {
        CpuState { gpr: self.gpr.update(r, value), ..self }
    }

    /// The state with the program counter moved on by one instruction,
    /// modulo 2^32.
    pub open spec fn increment_pc(self) -> CpuState {
        self.with_register(PC as int, self.pc().wrapping_add(self.width()))
    }

    /// The state with a named bit of the status register set. With the T
    /// bit the processor goes to Thumb state.
    pub open spec fn set_bit(self, bit: CPSRBitsMask) -> CpuState {
        CpuState {
            cpsr: self.cpsr | bit_mask(bit),
            cpu_mode: if bit == CPSRBitsMask::T {
                CpuStateMode::THUMB
            } else {
                self.cpu_mode
            },
            ..self
        }
    }

    /// The state with a named bit of the status register cleared. With
    /// the T bit the processor goes to ARM state.
    pub open spec fn clear_bit(self, bit: CPSRBitsMask) -> CpuState {
        CpuState {
            cpsr: self.cpsr & !bit_mask(bit),
            cpu_mode: if bit == CPSRBitsMask::T {
                CpuStateMode::ARM
            } else {
                self.cpu_mode
            },
            ..self
        }
    }

    /// The state with the banked registers of the current mode put away
    /// in their shadow. FIQ puts away R8 to R14. Every other mode puts
    /// away its R13 and R14, and R8 to R12 go to the shadow of User and
    /// System, where all modes but FIQ find them again.
    pub open spec fn stash(self) -> CpuState {
        let shared = self.gpr.subrange(8, 13) + self.banked_user_sys_regs.subrange(5, 7);
        match self.operation_mode {
            OperationModes::User => CpuState {
                banked_user_sys_regs: self.gpr.subrange(8, 15),
                ..self
            },
            OperationModes::System => CpuState {
                banked_user_sys_regs: self.gpr.subrange(8, 15),
                ..self
            },
            OperationModes::FIQ => CpuState { banked_fiq_regs: self.gpr.subrange(8, 15), ..self },
            OperationModes::IRQ => CpuState {
                banked_irq_regs: self.gpr.subrange(13, 15),
                banked_user_sys_regs: shared,
                ..self
            },
            OperationModes::Supervisor => CpuState {
                banked_svc_regs: self.gpr.subrange(13, 15),
                banked_user_sys_regs: shared,
                ..self
            },
            OperationModes::Abort => CpuState {
                banked_abt_regs: self.gpr.subrange(13, 15),
                banked_user_sys_regs: shared,
                ..self
            },
            OperationModes::Undefined => CpuState {
                banked_und_regs: self.gpr.subrange(13, 15),
                banked_user_sys_regs: shared,
                ..self
            },
        }
    }

    /// The state with the banked registers of `mode` taken out of their
    /// shadow into R8 to R14.
    pub open spec fn load(self, mode: OperationModes) -> CpuState {
        let low = self.gpr.subrange(0, 8);
        let shared = self.banked_user_sys_regs.subrange(0, 5);
        let top = self.gpr.subrange(15, 16);
        let banked = match mode {
            OperationModes::User => self.banked_user_sys_regs,
            OperationModes::System => self.banked_user_sys_regs,
            OperationModes::FIQ => self.banked_fiq_regs,
            OperationModes::IRQ => shared + self.banked_irq_regs,
            OperationModes::Supervisor => shared + self.banked_svc_regs,
            OperationModes::Abort => shared + self.banked_abt_regs,
            OperationModes::Undefined => shared + self.banked_und_regs,
        };
        CpuState { gpr: low + banked + top, ..self }
    }

    /// The state after a switch to `mode`: the banked registers of the
    /// mode that is left are put away, those of `mode` are taken out, and
    /// the code of `mode` is written to the mode bits of the status
    /// register, whose other bits stay. No saved status register changes.
    /// A switch to the mode that the processor is in moves no register.
    pub open spec fn enter_mode(self, mode: OperationModes) -> CpuState {
        let swapped = if mode == self.operation_mode {
            self
        } else {
            self.stash().load(mode)
        };
        CpuState {
            cpsr: (self.cpsr & !MODE_BITS_MASK) | mode_code(mode),
            operation_mode: mode,
            ..swapped
        }
    }
}

/// The instruction at `address`: a word in ARM state, a half-word in
/// Thumb state.
pub open spec fn fetch_at(cpu_mode: CpuStateMode, mem: MemoryImage, address: u32) -> Result<
    u32,
    BusFault,
> {
    match cpu_mode {
        CpuStateMode::ARM => load32(mem, address),
        CpuStateMode::THUMB => match load16(mem, address) {
            Ok(half) => Ok(half as u32),
            Err(fault) => Err(fault),
        },
    }
}

/// Whether `address` can be the address of an instruction: a multiple of
/// four in ARM state, of two in Thumb state.
pub open spec fn is_aligned(cpu_mode: CpuStateMode, address: u32) -> bool {
    match cpu_mode {
        CpuStateMode::ARM => address % 4 == 0,
        CpuStateMode::THUMB => address % 2 == 0,
    }
}

/// `address` with the bits cleared that are zero in the address of every
/// instruction: two bits in ARM state, one in Thumb state.
pub open spec fn align(cpu_mode: CpuStateMode, address: u32) -> u32 {
    match cpu_mode {
        CpuStateMode::ARM => address & 0xFFFF_FFFC,
        CpuStateMode::THUMB => address & 0xFFFF_FFFE,
    }
}

impl CpuState {
    /// Both slots of the pipeline hold an instruction.
    pub open spec fn pipeline_full(self) -> bool {
        self.pipeline[0] is Some && self.pipeline[1] is Some
    }

    /// The status register and the tracked modes agree: the mode bits
    /// hold the code of the operation mode, and the T bit is set in Thumb
    /// state and in no other.
    pub open spec fn coherent(self) -> bool {
        &&& self.wf()
        &&& self.cpsr & MODE_BITS_MASK == mode_code(self.operation_mode)
        &&& self.bit(CPSRBitsMask::T) <==> self.cpu_mode == CpuStateMode::THUMB
    }

    /// The state is coherent and the program counter is aligned.
    pub open spec fn inv(self) -> bool {
        &&& self.coherent()
        &&& is_aligned(self.cpu_mode, self.pc())
    }

    /// The address that an exception leaves in the link register of its
    /// mode, where `head` is the address of the instruction in the first
    /// slot of the pipeline, two instructions below the program counter.
    ///
    /// * Undefined instruction, software interrupt: `head`, the
    ///   instruction that follows the one that raised the exception.
    /// * Normal and fast interrupt: `head`, the instruction that follows
    ///   the one that was executed last.
    /// * Prefetch abort: `head + 4`, the instruction at `head` being the
    ///   one that could not be fetched.
    /// * Reset, data abort, address exceeds: the program counter.
    pub open spec fn return_address(self, exception: ExceptionType) -> u32 {
        let head = self.pc().wrapping_sub(self.width()).wrapping_sub(self.width());
        match exception {
            ExceptionType::Reset => self.pc(),
            ExceptionType::UndefinedInstruction => head,
            ExceptionType::SoftwareInterrupt => head,
            ExceptionType::PrefetchAbort => head.wrapping_add(4),
            ExceptionType::DataAbort => self.pc(),
            ExceptionType::AddressExceeds => self.pc(),
            ExceptionType::NormalInterrupt => head,
            ExceptionType::FastInterrupt => head,
        }
    }

    /// The state with the pipeline filled anew from the program counter:
    /// the counter is aligned, the two instructions at it go to the two
    /// slots, and the counter ends two instructions further. Where one
    /// of the fetches faults, the fault.
    pub open spec fn refill(self, mem: MemoryImage) -> Result<CpuState, BusFault> {
        let first_at = align(self.cpu_mode, self.pc());
        let second_at = first_at.wrapping_add(self.width());
        match fetch_at(self.cpu_mode, mem, first_at) {
            Err(fault) => Err(fault),
            Ok(first) => match fetch_at(self.cpu_mode, mem, second_at) {
                Err(fault) => Err(fault),
                Ok(second) => Ok(
                    CpuState {
                        gpr: self.gpr.update(PC as int, second_at.wrapping_add(self.width())),
                        pipeline: seq![Some(first), Some(second)],
                        ..self
                    },
                ),
            },
        }
    }

    /// The state after an entry into an exception, in this order: the
    /// return address is computed; the mode of the exception is entered;
    /// the status register as it was before the entry is saved for that
    /// mode; the return address goes to the link register; interrupts
    /// are disabled, fast ones too for a reset and a fast interrupt; the
    /// processor goes to ARM state; the program counter is set to the
    /// vector and the pipeline is filled from there.
    #[verifier::opaque]
    pub open spec fn raise(self, exception: ExceptionType, mem: MemoryImage) -> CpuState {
        let target = exception_mode(exception);
        let entered = self.enter_mode(target).with_spsr(target, self.cpsr).with_register(
            LR as int,
            self.return_address(exception),
        );
        let masked = if exception_masks_fiq(exception) {
            entered.set_bit(CPSRBitsMask::I).set_bit(CPSRBitsMask::F)
        } else {
            entered.set_bit(CPSRBitsMask::I)
        };
        let at_vector = masked.clear_bit(CPSRBitsMask::T).with_register(
            PC as int,
            exception_vector(exception),
        );
        match at_vector.refill(mem) {
            Ok(filled) => filled,
            Err(_) => at_vector,
        }
    }

    /// The state after a flush of the pipeline: the pipeline filled anew
    /// from the program counter or, where a fetch faults, the entry into
    /// the address-exceeds exception.
    pub open spec fn flush(self, mem: MemoryImage) -> CpuState {
        match self.refill(mem) {
            Ok(filled) => filled,
            Err(_) => self.raise(ExceptionType::AddressExceeds, mem),
        }
    }

    /// The interrupt that is taken before the next instruction, if any: a
    /// fast interrupt that is pending while the F bit is clear, else a
    /// normal interrupt that is pending while the I bit is clear.
    pub open spec fn interrupt_due(self) -> Option<ExceptionType> {
        if self.fiq_pending && !self.bit(CPSRBitsMask::F) {
            Some(ExceptionType::FastInterrupt)
        } else if self.irq_pending && !self.bit(CPSRBitsMask::I) {
            Some(ExceptionType::NormalInterrupt)
        } else {
            None
        }
    }

    /// The state after the interrupt that is due, if any, was taken: its
    /// request is no longer pending and its exception was entered.
    pub open spec fn take_interrupt(self, mem: MemoryImage) -> CpuState {
        match self.interrupt_due() {
            Some(ExceptionType::FastInterrupt) => CpuState { fiq_pending: false, ..self }.raise(
                ExceptionType::FastInterrupt,
                mem,
            ),
            Some(_) => CpuState { irq_pending: false, ..self }.raise(
                ExceptionType::NormalInterrupt,
                mem,
            ),
            None => self,
        }
    }

    /// The state after the pipeline moved on by one instruction: the
    /// second slot moves to the first, `fetched` goes to the second, and
    /// the program counter moves on.
    pub open spec fn advance(self, fetched: u32) -> CpuState {
        CpuState { pipeline: seq![self.pipeline[1], Some(fetched)], ..self }.increment_pc()
    }

    /// The state after an instruction of the family `kind` was executed,
    /// and the cycles that this took on top of the advance of the
    /// pipeline. A software interrupt enters its exception. An opcode of
    /// the undefined data-processing family, or of no family, enters
    /// the undefined-instruction exception. The other families change
    /// nothing and take no further cycle.
    pub open spec fn execute(self, kind: ArmInstructionKind, mem: MemoryImage) -> (CpuState, u32) {
        match kind {
            ArmInstructionKind::Swi => (
                self.raise(ExceptionType::SoftwareInterrupt, mem),
                PIPELINE_REFILL_CYCLES,
            ),
            ArmInstructionKind::UndefDataproc => (
                self.raise(ExceptionType::UndefinedInstruction, mem),
                PIPELINE_REFILL_CYCLES,
            ),
            ArmInstructionKind::Undefined => (
                self.raise(ExceptionType::UndefinedInstruction, mem),
                PIPELINE_REFILL_CYCLES,
            ),
            _ => (self, 0),
        }
    }

    /// The state after the instruction in the first slot of the pipeline
    /// was run, and the cycles that this took.
    ///
    /// The next instruction is fetched at the program counter. Where
    /// that fetch faults, the address-exceeds exception is entered and
    /// the instruction in the first slot is given up. Else the pipeline
    /// advances, and then: in Thumb state nothing more happens; an ARM
    /// opcode with the condition code 15 enters the undefined-instruction
    /// exception; one whose condition the flags do not meet has no
    /// effect; any other is decoded and executed.
    #[verifier::opaque]
    pub open spec fn run(self, mem: MemoryImage) -> (CpuState, u32) {
        let opcode = self.pipeline[0].unwrap();
        match fetch_at(self.cpu_mode, mem, self.pc()) {
            Err(_) => (
                self.raise(ExceptionType::AddressExceeds, mem),
                (PIPELINE_ADVANCE_CYCLES + PIPELINE_REFILL_CYCLES) as u32,
            ),
            Ok(fetched) => {
                let advanced = self.advance(fetched);
                if self.cpu_mode == CpuStateMode::THUMB {
                    (advanced, PIPELINE_ADVANCE_CYCLES)
                } else if cond_bits(opcode) == 0xF {
                    (
                        advanced.raise(ExceptionType::UndefinedInstruction, mem),
                        (PIPELINE_ADVANCE_CYCLES + PIPELINE_REFILL_CYCLES) as u32,
                    )
                } else if !condition_holds(cond_bits(opcode), self.cpsr) {
                    (advanced, PIPELINE_ADVANCE_CYCLES)
                } else {
                    let (executed, cycles) = advanced.execute(decode(opcode), mem);
                    (executed, (PIPELINE_ADVANCE_CYCLES + cycles) as u32)
                }
            },
        }
    }

    /// The cycles that the next step takes: those of the instruction,
    /// and those of the entry into an interrupt where one is due.
    #[verifier::opaque]
    pub open spec fn step_cycles(self, mem: MemoryImage) -> u32 {
        let entry = if self.interrupt_due() is Some {
            PIPELINE_REFILL_CYCLES
        } else {
            0
        };
        (entry + self.take_interrupt(mem).run(mem).1) as u32
    }

    /// The state after one step: the interrupt that is due is taken, the
    /// instruction in the first slot of the pipeline is run, and the
    /// cycle counter holds what the step took.
    #[verifier::opaque]
    pub open spec fn step(self, mem: MemoryImage) -> CpuState {
        CpuState {
            instruction_cycles: self.step_cycles(mem),
            ..self.take_interrupt(mem).run(mem).0
        }
    }
}

/// A switch of mode loses no register: every register of every mode is
/// after the switch what it was before, and the registers that are live
/// are those of the mode that was entered.
pub proof fn lemma_enter_mode_keeps_registers(
    state: CpuState,
    mode: OperationModes,
    seen_by: OperationModes,
    r: int,
)
    requires
        state.wf(),
        0 <= r < 16,
    ensures
        state.enter_mode(mode).wf(),
        state.enter_mode(mode).reg(seen_by, r) == state.reg(seen_by, r),
        state.enter_mode(mode).gpr[r] == state.reg(mode, r),
{
}

proof fn lemma_status_bits(cpsr: u32, code: u32)
    by (bit_vector)
    requires
        code <= 0x1F,
    ensures
        ((cpsr & !0x1Fu32) | code) & 0x1F == code,
        ((cpsr & !0x1Fu32) | code) & !0x1Fu32 == cpsr & !0x1Fu32,
        ((cpsr & !0x1Fu32) | code) & 0x20 == cpsr & 0x20,
        ((cpsr & !0x1Fu32) | code) & 0x40 == cpsr & 0x40,
        ((cpsr & !0x1Fu32) | code) & 0x80 == cpsr & 0x80,
        ((cpsr & !0x1Fu32) | code) & 0xF000_0000 == cpsr & 0xF000_0000,
        ((cpsr & !0x1Fu32) | (cpsr & 0x1F)) == cpsr,
{
}

proof fn lemma_entry_bits(cpsr: u32)
    by (bit_vector)
    ensures
        ((cpsr | 0x80) & !0x20u32) & 0x1F == cpsr & 0x1F,
        ((cpsr | 0x80) & !0x20u32) & 0x20 == 0,
        ((cpsr | 0x80) & !0x20u32) & 0x80 != 0,
        ((cpsr | 0x80) & !0x20u32) & 0x40 == cpsr & 0x40,
        ((cpsr | 0x80) & !0x20u32) & 0xF000_0000 == cpsr & 0xF000_0000,
        (((cpsr | 0x80) | 0x40) & !0x20u32) & 0x1F == cpsr & 0x1F,
        (((cpsr | 0x80) | 0x40) & !0x20u32) & 0x20 == 0,
        (((cpsr | 0x80) | 0x40) & !0x20u32) & 0x80 != 0,
        (((cpsr | 0x80) | 0x40) & !0x20u32) & 0x40 != 0,
        (((cpsr | 0x80) | 0x40) & !0x20u32) & 0xF000_0000 == cpsr & 0xF000_0000,
        ((cpsr | 0x80) & !0x20u32) & 0x8000_0000 == cpsr & 0x8000_0000,
        ((cpsr | 0x80) & !0x20u32) & 0x4000_0000 == cpsr & 0x4000_0000,
        ((cpsr | 0x80) & !0x20u32) & 0x2000_0000 == cpsr & 0x2000_0000,
        ((cpsr | 0x80) & !0x20u32) & 0x1000_0000 == cpsr & 0x1000_0000,
        (((cpsr | 0x80) | 0x40) & !0x20u32) & 0x8000_0000 == cpsr & 0x8000_0000,
        (((cpsr | 0x80) | 0x40) & !0x20u32) & 0x4000_0000 == cpsr & 0x4000_0000,
        (((cpsr | 0x80) | 0x40) & !0x20u32) & 0x2000_0000 == cpsr & 0x2000_0000,
        (((cpsr | 0x80) | 0x40) & !0x20u32) & 0x1000_0000 == cpsr & 0x1000_0000,
{
}

proof fn lemma_align(address: u32)
    by (bit_vector)
    ensures
        (address & 0xFFFF_FFFC) % 4 == 0,
        (address & 0xFFFF_FFFE) % 2 == 0,
        address % 4 == 0 ==> address & 0xFFFF_FFFC == address,
        address % 2 == 0 ==> address & 0xFFFF_FFFE == address,
        (address & 0xFFFF_FFFC) <= address,
        (address & 0xFFFF_FFFE) <= address,
{
}

proof fn lemma_named_bits(cpsr: u32)
    by (bit_vector)
    ensures
        (cpsr | 0x8000_0000) & 0x3F == cpsr & 0x3F,
        (cpsr | 0x4000_0000) & 0x3F == cpsr & 0x3F,
        (cpsr | 0x2000_0000) & 0x3F == cpsr & 0x3F,
        (cpsr | 0x1000_0000) & 0x3F == cpsr & 0x3F,
        (cpsr | 0x80) & 0x3F == cpsr & 0x3F,
        (cpsr | 0x40) & 0x3F == cpsr & 0x3F,
        (cpsr | 0x20) & 0x1F == cpsr & 0x1F,
        (cpsr | 0x20) & 0x20 != 0,
        (cpsr & !0x8000_0000u32) & 0x3F == cpsr & 0x3F,
        (cpsr & !0x4000_0000u32) & 0x3F == cpsr & 0x3F,
        (cpsr & !0x2000_0000u32) & 0x3F == cpsr & 0x3F,
        (cpsr & !0x1000_0000u32) & 0x3F == cpsr & 0x3F,
        (cpsr & !0x80u32) & 0x3F == cpsr & 0x3F,
        (cpsr & !0x40u32) & 0x3F == cpsr & 0x3F,
        (cpsr & !0x20u32) & 0x1F == cpsr & 0x1F,
        (cpsr & !0x20u32) & 0x20 == 0,
{
}

proof fn lemma_low_bits(a: u32, b: u32)
    by (bit_vector)
    requires
        a & 0x3F == b & 0x3F,
    ensures
        a & 0x1F == b & 0x1F,
        a & 0x20 == b & 0x20,
{
}

/// Setting or clearing a named bit of the status register keeps a
/// coherent state coherent: the mode bits stay, and with the T bit the
/// state of the processor follows.
pub proof fn lemma_status_bit_keeps_coherence(state: CpuState, bit: CPSRBitsMask)
    ensures
        state.set_bit(bit).bit(bit),
        !state.clear_bit(bit).bit(bit),
        state.coherent() ==> state.set_bit(bit).coherent() && state.clear_bit(bit).coherent(),
{
    lemma_named_bits(state.cpsr);
    if bit != CPSRBitsMask::T {
        lemma_low_bits(state.set_bit(bit).cpsr, state.cpsr);
        lemma_low_bits(state.clear_bit(bit).cpsr, state.cpsr);
    }
    lemma_bit_set_and_cleared(state.cpsr, bit_mask(bit));
}

proof fn lemma_bit_set_and_cleared(cpsr: u32, mask: u32)
    by (bit_vector)
    requires
        mask != 0,
    ensures
        (cpsr | mask) & mask != 0,
        (cpsr & !mask) & mask == 0,
{
}

/// What a switch of mode does to the status register: the mode bits hold
/// the code of the new mode and every other bit is what it was. In a
/// coherent state a switch to the current mode changes nothing at all.
pub proof fn lemma_enter_mode_status(state: CpuState, mode: OperationModes)
    requires
        state.wf(),
    ensures
        state.enter_mode(mode).cpsr & MODE_BITS_MASK == mode_code(mode),
        state.enter_mode(mode).cpsr & !MODE_BITS_MASK == state.cpsr & !MODE_BITS_MASK,
        forall|bit: CPSRBitsMask| #[trigger] state.enter_mode(mode).bit(bit) == state.bit(bit),
        state.coherent() ==> state.enter_mode(mode).coherent(),
        state.inv() ==> state.enter_mode(mode).inv(),
        state.coherent() && mode == state.operation_mode ==> state.enter_mode(mode) == state,
{
    lemma_status_bits(state.cpsr, mode_code(mode));
    lemma_flag_bits(state.cpsr, mode_code(mode));
}

proof fn lemma_flag_bits(cpsr: u32, code: u32)
    by (bit_vector)
    requires
        code <= 0x1F,
    ensures
        ((cpsr & !0x1Fu32) | code) & 0x8000_0000 == cpsr & 0x8000_0000,
        ((cpsr & !0x1Fu32) | code) & 0x4000_0000 == cpsr & 0x4000_0000,
        ((cpsr & !0x1Fu32) | code) & 0x2000_0000 == cpsr & 0x2000_0000,
        ((cpsr & !0x1Fu32) | code) & 0x1000_0000 == cpsr & 0x1000_0000,
{
}

/// Filling the pipeline from an address in the first kilobyte cannot
/// fault: the vectors lie in the BIOS, which is always mapped.
proof fn lemma_refill_at_vector(state: CpuState, mem: MemoryImage)
    requires
        state.wf(),
        state.cpu_mode == CpuStateMode::ARM,
        state.pc() <= 0x3F0,
        state.pc() % 4 == 0,
    ensures
        state.refill(mem) matches Ok(filled) && filled == (CpuState {
            gpr: state.gpr.update(PC as int, (state.pc() + 8) as u32),
            pipeline: seq![Some(0u32), Some(0u32)],
            ..state
        }),
{
    lemma_align(state.pc());
    lemma_bios_reads_zero(mem, state.pc());
    lemma_bios_reads_zero(mem, (state.pc() + 4) as u32);
}

/// What an entry into an exception leaves behind.
///
/// The processor is in the mode of the exception and in ARM state, with
/// normal interrupts disabled, and fast ones too after a reset or a fast
/// interrupt; the other bits of the status register are what they were.
/// The saved status register of the mode holds the status register as it
/// was before the entry, and the link register of the mode holds the
/// return address. Execution goes on at the vector: the pipeline holds
/// the two instructions there and the program counter stands two
/// instructions beyond it. Every other register of every mode, R15 and
/// the link register of the exception's mode apart, is what it was
/// before. The state is coherent and aligned whatever it was before.
pub open spec fn exception_entered(
    before: CpuState,
    exception: ExceptionType,
    mem: MemoryImage,
    after: CpuState,
) -> bool {
    let target = exception_mode(exception);
    let vector = exception_vector(exception);
    &&& after.inv()
    &&& after.operation_mode == target
    &&& after.cpu_mode == CpuStateMode::ARM
    &&& after.cpsr & MODE_BITS_MASK == mode_code(target)
    &&& after.bit(CPSRBitsMask::I)
    &&& !after.bit(CPSRBitsMask::T)
    &&& after.bit(CPSRBitsMask::F) == (exception_masks_fiq(exception) || before.bit(
        CPSRBitsMask::F,
    ))
    &&& after.bit(CPSRBitsMask::N) == before.bit(CPSRBitsMask::N)
    &&& after.bit(CPSRBitsMask::Z) == before.bit(CPSRBitsMask::Z)
    &&& after.bit(CPSRBitsMask::C) == before.bit(CPSRBitsMask::C)
    &&& after.bit(CPSRBitsMask::V) == before.bit(CPSRBitsMask::V)
    &&& after.spsr(target) == Some(before.cpsr)
    &&& forall|mode: OperationModes|
        mode != target ==> #[trigger] after.spsr(mode) == before.spsr(mode)
    &&& after.gpr[LR as int] == before.return_address(exception)
    &&& after.pc() == vector + 8
    &&& after.pipeline_full()
    &&& fetch_at(CpuStateMode::ARM, mem, vector) == Ok::<u32, BusFault>(after.pipeline[0].unwrap())
    &&& fetch_at(CpuStateMode::ARM, mem, (vector + 4) as u32) == Ok::<u32, BusFault>(
        after.pipeline[1].unwrap(),
    )
    &&& forall|mode: OperationModes, r: int|
        0 <= r < 15 && !(r == 14 && same_bank(mode, target)) ==> #[trigger] after.reg(mode, r)
            == before.reg(mode, r)
    &&& after.irq_pending == before.irq_pending
    &&& after.fiq_pending == before.fiq_pending
    &&& after.instruction_cycles == before.instruction_cycles
}

/// An entry into an exception leaves behind what `exception_entered`
/// says, whatever the state was before.
#[verifier::rlimit(30)]
pub proof fn lemma_raise(state: CpuState, exception: ExceptionType, mem: MemoryImage)
    requires
        state.wf(),
    ensures
        exception_entered(state, exception, mem, state.raise(exception, mem)),
{
    reveal(CpuState::raise);
    let target = exception_mode(exception);
    let entered = state.enter_mode(target).with_spsr(target, state.cpsr).with_register(
        LR as int,
        state.return_address(exception),
    );
    let masked = if exception_masks_fiq(exception) {
        entered.set_bit(CPSRBitsMask::I).set_bit(CPSRBitsMask::F)
    } else {
        entered.set_bit(CPSRBitsMask::I)
    };
    let at_vector = masked.clear_bit(CPSRBitsMask::T).with_register(
        PC as int,
        exception_vector(exception),
    );
    let after = state.raise(exception, mem);
    lemma_enter_mode_status(state, target);
    let switched = state.enter_mode(target);
    assert(switched.bit(CPSRBitsMask::F) == state.bit(CPSRBitsMask::F));
    assert(switched.bit(CPSRBitsMask::N) == state.bit(CPSRBitsMask::N));
    assert(switched.bit(CPSRBitsMask::Z) == state.bit(CPSRBitsMask::Z));
    assert(switched.bit(CPSRBitsMask::C) == state.bit(CPSRBitsMask::C));
    assert(switched.bit(CPSRBitsMask::V) == state.bit(CPSRBitsMask::V));
    lemma_entry_bits(entered.cpsr);
    lemma_refill_at_vector(at_vector, mem);
    lemma_bios_reads_zero(mem, exception_vector(exception));
    lemma_bios_reads_zero(mem, (exception_vector(exception) + 4) as u32);
    assert forall|mode: OperationModes, r: int|
        0 <= r < 15 && !(r == 14 && same_bank(mode, target)) implies #[trigger] after.reg(mode, r)
        == state.reg(mode, r) by {
        lemma_enter_mode_keeps_registers(state, target, mode, r);
    }
}

/// After a flush the pipeline is full and the program counter aligned,
/// and a coherent state is still coherent.
pub proof fn lemma_flush(state: CpuState, mem: MemoryImage)
    requires
        state.wf(),
    ensures
        state.flush(mem).wf(),
        state.flush(mem).pipeline_full(),
        is_aligned(state.flush(mem).cpu_mode, state.flush(mem).pc()),
        state.coherent() ==> state.flush(mem).inv(),
{
    lemma_raise(state, ExceptionType::AddressExceeds, mem);
    lemma_align(state.pc());
}

/// Taking the interrupt that is due keeps the invariant and a full
/// pipeline.
pub proof fn lemma_take_interrupt(state: CpuState, mem: MemoryImage)
    requires
        state.inv(),
        state.pipeline_full(),
    ensures
        state.take_interrupt(mem).inv(),
        state.take_interrupt(mem).pipeline_full(),
{
    if state.interrupt_due() == Some(ExceptionType::FastInterrupt) {
        lemma_raise(CpuState { fiq_pending: false, ..state }, ExceptionType::FastInterrupt, mem);
    } else if state.interrupt_due() is Some {
        lemma_raise(CpuState { irq_pending: false, ..state }, ExceptionType::NormalInterrupt, mem);
    }
}

/// Every step takes at least one cycle and at most five.
pub proof fn lemma_step_cycles(state: CpuState, mem: MemoryImage)
    ensures
        1 <= state.step_cycles(mem) <= 5,
{
    reveal(CpuState::step_cycles);
    reveal(CpuState::run);
}

/// A step keeps the invariant: from a coherent, aligned state with a
/// full pipeline it leads to such a state, and it takes at least one
/// cycle and at most five.
pub proof fn lemma_step(state: CpuState, mem: MemoryImage)
    requires
        state.inv(),
        state.pipeline_full(),
    ensures
        state.step(mem).inv(),
        state.step(mem).pipeline_full(),
        1 <= state.step_cycles(mem) <= 5,
        state.step(mem).instruction_cycles == state.step_cycles(mem),
{
    reveal(CpuState::step);
    reveal(CpuState::step_cycles);
    lemma_take_interrupt(state, mem);
    lemma_run(state.take_interrupt(mem), mem);
}

/// Running one instruction keeps the invariant and takes one cycle, or
/// three where it ends in an exception.
pub proof fn lemma_run(state: CpuState, mem: MemoryImage)
    requires
        state.inv(),
        state.pipeline_full(),
    ensures
        state.run(mem).0.inv(),
        state.run(mem).0.pipeline_full(),
        state.run(mem).1 == 1 || state.run(mem).1 == 3,
{
    reveal(CpuState::run);
    lemma_raise(state, ExceptionType::AddressExceeds, mem);
    match fetch_at(state.cpu_mode, mem, state.pc()) {
        Err(_) => {},
        Ok(fetched) => {
            let advanced = state.advance(fetched);
            lemma_raise(advanced, ExceptionType::UndefinedInstruction, mem);
            lemma_raise(advanced, ExceptionType::SoftwareInterrupt, mem);
        },
    }
}

/// The state after `count` steps.
pub open spec fn after_steps(state: CpuState, mem: MemoryImage, count: nat) -> CpuState
    decreases count,
{
    if count == 0 {
        state
    } else {
        after_steps(state, mem, (count - 1) as nat).step(mem)
    }
}

/// Every state that is reached from a reset by steps keeps the
/// invariants: the T bit and the state of the processor agree, the mode
/// bits hold the code of the operation mode, the program counter is
/// aligned, and both slots of the pipeline are filled.
pub proof fn lemma_reachable_states(start: CpuState, mem: MemoryImage, count: nat)
    requires
        start.wf(),
    ensures
        after_steps(start.raise(ExceptionType::Reset, mem), mem, count).inv(),
        after_steps(start.raise(ExceptionType::Reset, mem), mem, count).pipeline_full(),
    decreases count,
{
    if count == 0 {
        lemma_raise(start, ExceptionType::Reset, mem);
    } else {
        let before = (count - 1) as nat;
        lemma_reachable_states(start, mem, before);
        lemma_step(after_steps(start.raise(ExceptionType::Reset, mem), mem, before), mem);
    }
}

/// An ARM instruction whose condition the flags do not meet changes
/// nothing but the pipeline, which advances, and the cycle counter: the
/// step takes one cycle.
pub proof fn lemma_failed_condition(state: CpuState, mem: MemoryImage, fetched: u32)
    requires
        state.wf(),
        state.interrupt_due() is None,
        state.cpu_mode == CpuStateMode::ARM,
        state.pipeline[0] matches Some(opcode) && cond_bits(opcode) != 0xF && !condition_holds(
            cond_bits(opcode),
            state.cpsr,
        ),
        fetch_at(state.cpu_mode, mem, state.pc()) == Ok::<u32, BusFault>(fetched),
    ensures
        state.step(mem) == (CpuState {
            gpr: state.gpr.update(PC as int, state.pc().wrapping_add(4)),
            pipeline: seq![state.pipeline[1], Some(fetched)],
            instruction_cycles: 1,
            ..state
        }),
{
    reveal(CpuState::step);
    reveal(CpuState::step_cycles);
    reveal(CpuState::run);
}

/// Leaving a mode right after entering it restores the registers: after
/// a switch to any mode and a switch back, the sixteen live registers
/// are what they were, as is every register of every mode, and in a
/// coherent state the status register too.
pub proof fn lemma_mode_round_trip(state: CpuState, mode: OperationModes)
    requires
        state.wf(),
    ensures
        ({
            let back = state.enter_mode(mode).enter_mode(state.operation_mode);
            &&& back.gpr == state.gpr
            &&& back.operation_mode == state.operation_mode
            &&& forall|seen_by: OperationModes, r: int|
                0 <= r < 16 ==> #[trigger] back.reg(seen_by, r) == state.reg(seen_by, r)
            &&& state.coherent() ==> back.cpsr == state.cpsr
        }),
{
    let there = state.enter_mode(mode);
    let back = there.enter_mode(state.operation_mode);
    assert forall|r: int| 0 <= r < 16 implies back.gpr[r] == state.gpr[r] by {
        lemma_enter_mode_keeps_registers(state, mode, state.operation_mode, r);
        lemma_enter_mode_keeps_registers(there, state.operation_mode, state.operation_mode, r);
    }
    assert forall|seen_by: OperationModes, r: int| 0 <= r < 16 implies #[trigger] back.reg(
        seen_by,
        r,
    ) == state.reg(seen_by, r) by {
        lemma_enter_mode_keeps_registers(state, mode, seen_by, r);
        lemma_enter_mode_keeps_registers(there, state.operation_mode, seen_by, r);
    }
    if state.coherent() {
        lemma_enter_mode_status(state, mode);
        lemma_enter_mode_status(there, state.operation_mode);
        lemma_status_bits(state.cpsr, mode_code(state.operation_mode));
        lemma_status_bits(there.cpsr, mode_code(state.operation_mode));
        lemma_mode_bits_split(state.cpsr, back.cpsr);
    }
}

proof fn lemma_mode_bits_split(a: u32, b: u32)
    by (bit_vector)
    requires
        a & 0x1F == b & 0x1F,
        a & !0x1Fu32 == b & !0x1Fu32,
    ensures
        a == b,
{
}

/// Leaving an exception right after its entry restores the registers.
/// Where the exception was taken in a coherent state whose mode shares
/// no bank with the exception's mode, the status register saved at the
/// entry is the one from before it, and a switch back to the mode that it
/// names makes R0 to R14 what they were before the entry. The program
/// counter is not among them: the entry has set it to the vector.
pub proof fn lemma_exception_round_trip(
    state: CpuState,
    exception: ExceptionType,
    mem: MemoryImage,
)
    requires
        state.coherent(),
        !same_bank(state.operation_mode, exception_mode(exception)),
    ensures
        ({
            let entered = state.raise(exception, mem);
            let back = entered.enter_mode(state.operation_mode);
            &&& entered.spsr(entered.operation_mode) == Some(state.cpsr)
            &&& state.cpsr & MODE_BITS_MASK == mode_code(state.operation_mode)
            &&& forall|r: int| 0 <= r < 15 ==> back.gpr[r] == state.gpr[r]
            &&& forall|seen_by: OperationModes, r: int|
                0 <= r < 15 && !(r == 14 && same_bank(seen_by, entered.operation_mode))
                    ==> #[trigger] back.reg(seen_by, r) == state.reg(seen_by, r)
        }),
{
    let entered = state.raise(exception, mem);
    let back = entered.enter_mode(state.operation_mode);
    lemma_raise(state, exception, mem);
    assert forall|r: int| 0 <= r < 15 implies back.gpr[r] == state.gpr[r] by {
        lemma_enter_mode_keeps_registers(entered, state.operation_mode, state.operation_mode, r);
    }
    assert forall|seen_by: OperationModes, r: int|
        0 <= r < 15 && !(r == 14 && same_bank(seen_by, entered.operation_mode))
        implies #[trigger] back.reg(seen_by, r) == state.reg(seen_by, r) by {
        lemma_enter_mode_keeps_registers(entered, state.operation_mode, seen_by, r);
    }
}

/// Switching from one mode to another and back restores the registers:
/// for two modes `a` and `b`, the live registers after the switches to
/// `a`, to `b` and to `a` again are those after the first switch to `a`,
/// which are those of the state itself where it was in mode `a`; and
/// every register of every mode is what it was at the start.
pub proof fn lemma_three_switches(state: CpuState, a: OperationModes, b: OperationModes)
    requires
        state.wf(),
        a != b,
    ensures
        ({
            let first = state.enter_mode(a);
            let last = first.enter_mode(b).enter_mode(a);
            &&& last.gpr == first.gpr
            &&& state.operation_mode == a ==> last.gpr == state.gpr
            &&& forall|seen_by: OperationModes, r: int|
                0 <= r < 16 ==> #[trigger] last.reg(seen_by, r) == state.reg(seen_by, r)
        }),
{
    let first = state.enter_mode(a);
    let last = first.enter_mode(b).enter_mode(a);
    assert(first.wf()) by {
        lemma_enter_mode_keeps_registers(state, a, a, 0);
    }
    lemma_mode_round_trip(first, b);
    assert forall|seen_by: OperationModes, r: int| 0 <= r < 16 implies #[trigger] last.reg(
        seen_by,
        r,
    ) == state.reg(seen_by, r) by {
        lemma_enter_mode_keeps_registers(state, a, seen_by, r);
    }
}

} // verus!
