use gba_core::arm7tdmi::ARM7TDMI;
use gba_core::cpu_state::{CPSRBitsMask, CpuStateMode, ExceptionType, OperationModes};
use gba_core::system_memory::{MemoryOperation, SysMem};

/// The modes with their codes.
fn modes() -> Vec<(OperationModes, u32)> {
    vec![
        (OperationModes::User, 0b10000),
        (OperationModes::FIQ, 0b10001),
        (OperationModes::IRQ, 0b10010),
        (OperationModes::Supervisor, 0b10011),
        (OperationModes::Abort, 0b10111),
        (OperationModes::Undefined, 0b11011),
        (OperationModes::System, 0b11111),
    ]
}

/// The exceptions with their vectors, their modes, and whether they
/// disable fast interrupts.
fn exceptions() -> Vec<(ExceptionType, u32, OperationModes, bool)> {
    vec![
        (ExceptionType::Reset, 0x00, OperationModes::Supervisor, true),
        (ExceptionType::UndefinedInstruction, 0x04, OperationModes::Undefined, false),
        (ExceptionType::SoftwareInterrupt, 0x08, OperationModes::Supervisor, false),
        (ExceptionType::PrefetchAbort, 0x0C, OperationModes::Abort, false),
        (ExceptionType::DataAbort, 0x10, OperationModes::Abort, false),
        (ExceptionType::AddressExceeds, 0x14, OperationModes::Supervisor, false),
        (ExceptionType::NormalInterrupt, 0x18, OperationModes::IRQ, false),
        (ExceptionType::FastInterrupt, 0x1C, OperationModes::FIQ, true),
    ]
}

/// The sixteen registers that the current mode sees.
fn registers(cpu: &ARM7TDMI) -> Vec<u32> {
    let mut all: Vec<u32> = Vec::new();
    for r in 0usize..16 {
        all.push(cpu.register(r));
    }
    all
}

/// Every register of every mode.
fn register_file(cpu: &ARM7TDMI) -> Vec<u32> {
    let mut all: Vec<u32> = Vec::new();
    for (mode, _) in modes() {
        for r in 0usize..16 {
            all.push(cpu.banked_register(mode, r));
        }
    }
    all
}

/// A processor in User mode, with the status register 0x10, in which
/// every register of every mode holds a value of its own.
fn distinct_registers() -> ARM7TDMI {
    let mut cpu = ARM7TDMI::new();
    for (mode, code) in modes() {
        cpu.enter_operation_mode(mode);
        for r in 0usize..16 {
            if r >= 8 && r != 15 {
                cpu.set_register(r, (code << 8) | r as u32);
            }
        }
    }
    cpu.enter_operation_mode(OperationModes::User);
    for r in 0usize..8 {
        cpu.set_register(r, 0xC000_0000 | r as u32);
    }
    cpu.set_register(15, 0x0300_0000);
    cpu
}

/// Memory with a program in IWRAM, and a processor that was reset and
/// then sent to the start of the program.
fn with_program(program: &[u32]) -> (ARM7TDMI, SysMem) {
    let mut mem = SysMem::new();
    let mut address: u32 = 0x0300_0000;
    for word in program {
        assert_eq!(mem.write32(address, *word), Ok(()));
        address += 4;
    }
    let mut cpu = ARM7TDMI::new();
    cpu.reset(&mut mem);
    cpu.pc_mut(0x0300_0000);
    cpu.flush_pipeline(&mut mem);
    (cpu, mem)
}

#[test]
fn pc_increments_work_and_wraps() {
    let mut cpu = ARM7TDMI::new();
    let mut expected_pc: u32 = 4;

    cpu.increment_pc();

    assert_eq!(cpu.pc(), expected_pc);

    expected_pc = 3;
    cpu.pc_mut(0xFFFFFFFF);
    cpu.increment_pc();

    assert_eq!(cpu.pc(), expected_pc);
}

#[test]
fn pc_increment_wraps_in_thumb_state() {
    let mut cpu = ARM7TDMI::new();
    cpu.set_cpsr_bit(CPSRBitsMask::T);
    assert_eq!(cpu.cpu_state_mode(), CpuStateMode::THUMB);
    cpu.increment_pc();
    assert_eq!(cpu.pc(), 2);
    cpu.pc_mut(0xFFFF_FFFF);
    cpu.increment_pc();
    assert_eq!(cpu.pc(), 1);
    cpu.pc_mut(0xFFFF_FFFE);
    cpu.increment_pc();
    assert_eq!(cpu.pc(), 0);
}

#[test]
fn pc_increment_wraps_to_zero_in_arm_state() {
    let mut cpu = ARM7TDMI::new();
    cpu.pc_mut(0xFFFF_FFFC);
    cpu.increment_pc();
    assert_eq!(cpu.pc(), 0);
    cpu.increment_pc();
    assert_eq!(cpu.pc(), 4);
}

#[test]
fn a_new_processor_is_zeroed() {
    let cpu = ARM7TDMI::new();
    assert_eq!(registers(&cpu), vec![0u32; 16]);
    assert_eq!(register_file(&cpu), vec![0u32; 16 * 7]);
    assert_eq!(cpu.cpsr(), 0);
    assert_eq!(cpu.operation_mode(), OperationModes::User);
    assert_eq!(cpu.cpu_state_mode(), CpuStateMode::ARM);
    assert_eq!(cpu.pipeline_slot(0), None);
    assert_eq!(cpu.pipeline_slot(1), None);
    assert_eq!(cpu.instruction_cycles(), 0);
    assert_eq!(cpu.spsr(OperationModes::User), None);
    assert_eq!(cpu.spsr(OperationModes::System), None);
    for mode in [
        OperationModes::FIQ,
        OperationModes::IRQ,
        OperationModes::Supervisor,
        OperationModes::Abort,
        OperationModes::Undefined,
    ] {
        assert_eq!(cpu.spsr(mode), Some(0));
    }
}

#[test]
fn status_bits_are_set_and_cleared() {
    let bits = [
        (CPSRBitsMask::N, 0x8000_0000u32),
        (CPSRBitsMask::Z, 0x4000_0000),
        (CPSRBitsMask::C, 0x2000_0000),
        (CPSRBitsMask::V, 0x1000_0000),
        (CPSRBitsMask::I, 0x0000_0080),
        (CPSRBitsMask::F, 0x0000_0040),
        (CPSRBitsMask::T, 0x0000_0020),
    ];
    let mut cpu = ARM7TDMI::new();
    let mut expected: u32 = 0;
    for (bit, mask) in bits {
        assert!(!cpu.get_cpsr_bit(bit));
        cpu.set_cpsr_bit(bit);
        expected |= mask;
        assert!(cpu.get_cpsr_bit(bit));
        assert_eq!(cpu.cpsr(), expected);
    }
    assert_eq!(cpu.cpsr(), 0xF000_00E0);
    assert_eq!(cpu.cpu_state_mode(), CpuStateMode::THUMB);
    for (bit, mask) in bits {
        cpu.clear_cpsr_bit(bit);
        expected &= !mask;
        assert!(!cpu.get_cpsr_bit(bit));
        assert_eq!(cpu.cpsr(), expected);
    }
    assert_eq!(cpu.cpsr(), 0);
    assert_eq!(cpu.cpu_state_mode(), CpuStateMode::ARM);
}

#[test]
fn the_t_bit_and_the_state_agree() {
    let mut cpu = ARM7TDMI::new();
    cpu.set_cpsr_bit(CPSRBitsMask::Z);
    assert_eq!(cpu.cpu_state_mode(), CpuStateMode::ARM);
    cpu.set_cpsr_bit(CPSRBitsMask::T);
    assert_eq!(cpu.cpu_state_mode(), CpuStateMode::THUMB);
    cpu.clear_cpsr_bit(CPSRBitsMask::Z);
    assert_eq!(cpu.cpu_state_mode(), CpuStateMode::THUMB);
    cpu.clear_cpsr_bit(CPSRBitsMask::T);
    assert_eq!(cpu.cpu_state_mode(), CpuStateMode::ARM);
}

#[test]
fn entering_a_mode_writes_its_code() {
    for (mode, code) in modes() {
        let mut cpu = ARM7TDMI::new();
        cpu.set_cpsr_bit(CPSRBitsMask::N);
        cpu.set_cpsr_bit(CPSRBitsMask::F);
        cpu.enter_operation_mode(mode);
        assert_eq!(cpu.operation_mode(), mode);
        assert_eq!(cpu.cpsr() & 0x1F, code);
        assert_eq!(cpu.cpsr(), 0x8000_0040 | code);
    }
}

#[test]
fn entering_a_mode_touches_no_saved_status_register() {
    let mut cpu = ARM7TDMI::new();
    cpu.set_cpsr_bit(CPSRBitsMask::C);
    for (mode, _) in modes() {
        cpu.enter_operation_mode(mode);
        for (other, _) in modes() {
            if other == OperationModes::User || other == OperationModes::System {
                assert_eq!(cpu.spsr(other), None);
            } else {
                assert_eq!(cpu.spsr(other), Some(0));
            }
        }
    }
}

#[test]
fn entering_the_current_mode_changes_nothing() {
    let mut cpu = distinct_registers();
    let before = register_file(&cpu);
    let cpsr: u32 = cpu.cpsr();
    assert_eq!(cpsr, 0x10);
    cpu.enter_operation_mode(OperationModes::User);
    assert_eq!(register_file(&cpu), before);
    assert_eq!(cpu.cpsr(), cpsr);
}

#[test]
fn each_mode_sees_its_own_registers() {
    let mut cpu = distinct_registers();
    for (mode, code) in modes() {
        cpu.enter_operation_mode(mode);
        for r in 0usize..8 {
            assert_eq!(cpu.register(r), 0xC000_0000 | r as u32);
        }
        assert_eq!(cpu.register(15), 0x0300_0000);
        for r in 8usize..13 {
            // FIQ has its own R8 to R12; the others share those that System wrote last.
            let owner: u32 = if mode == OperationModes::FIQ { code } else { 0b11111 };
            assert_eq!(cpu.register(r), (owner << 8) | r as u32, "{:?} r{}", mode, r);
        }
        for r in 13usize..15 {
            // User and System share R13 and R14, which System wrote last.
            let owner: u32 = if mode == OperationModes::User { 0b11111 } else { code };
            assert_eq!(cpu.register(r), (owner << 8) | r as u32, "{:?} r{}", mode, r);
        }
    }
}

#[test]
fn banked_registers_are_seen_from_any_mode() {
    let mut cpu = distinct_registers();
    let file = register_file(&cpu);
    for (mode, _) in modes() {
        cpu.enter_operation_mode(mode);
        assert_eq!(register_file(&cpu), file, "in {:?}", mode);
        assert_eq!(registers(&cpu)[13], cpu.banked_register(mode, 13));
        assert_eq!(registers(&cpu)[8], cpu.banked_register(mode, 8));
    }
    assert_eq!(cpu.banked_register(OperationModes::IRQ, 13), 0x120D);
    assert_eq!(cpu.banked_register(OperationModes::IRQ, 14), 0x120E);
    assert_eq!(cpu.banked_register(OperationModes::IRQ, 12), 0x1F0C);
    assert_eq!(cpu.banked_register(OperationModes::FIQ, 8), 0x1108);
    assert_eq!(cpu.banked_register(OperationModes::FIQ, 14), 0x110E);
    assert_eq!(cpu.banked_register(OperationModes::Supervisor, 13), 0x130D);
    assert_eq!(cpu.banked_register(OperationModes::Abort, 14), 0x170E);
    assert_eq!(cpu.banked_register(OperationModes::Undefined, 13), 0x1B0D);
    assert_eq!(cpu.banked_register(OperationModes::User, 13), 0x1F0D);
    assert_eq!(cpu.banked_register(OperationModes::System, 14), 0x1F0E);
    assert_eq!(cpu.banked_register(OperationModes::User, 3), 0xC000_0003);
    assert_eq!(cpu.banked_register(OperationModes::FIQ, 15), 0x0300_0000);
}

#[test]
fn leaving_a_mode_restores_the_registers() {
    for (home, _) in modes() {
        for (away, _) in modes() {
            let mut cpu = distinct_registers();
            cpu.enter_operation_mode(home);
            let live = registers(&cpu);
            let file = register_file(&cpu);
            let cpsr: u32 = cpu.cpsr();
            cpu.enter_operation_mode(away);
            cpu.enter_operation_mode(home);
            assert_eq!(registers(&cpu), live, "{:?} {:?}", home, away);
            assert_eq!(register_file(&cpu), file, "{:?} {:?}", home, away);
            assert_eq!(cpu.cpsr(), cpsr);
        }
    }
}

#[test]
fn three_switches_restore_the_registers() {
    for (a, _) in modes() {
        for (b, _) in modes() {
            if a == b {
                continue;
            }
            let mut cpu = distinct_registers();
            let file = register_file(&cpu);
            cpu.enter_operation_mode(a);
            let live = registers(&cpu);
            cpu.enter_operation_mode(b);
            cpu.enter_operation_mode(a);
            assert_eq!(registers(&cpu), live, "{:?} {:?}", a, b);
            assert_eq!(register_file(&cpu), file, "{:?} {:?}", a, b);
        }
    }
}

#[test]
fn fiq_banks_r8_to_r14() {
    let mut cpu = ARM7TDMI::new();
    cpu.enter_operation_mode(OperationModes::User);
    for r in 8usize..15 {
        cpu.set_register(r, 0xAAAA_AAAA);
    }
    cpu.enter_operation_mode(OperationModes::FIQ);
    for r in 8usize..15 {
        assert_eq!(cpu.register(r), 0);
    }
    cpu.set_register(8, 0x5555_5555);
    cpu.enter_operation_mode(OperationModes::User);
    for r in 8usize..15 {
        assert_eq!(cpu.register(r), 0xAAAA_AAAA);
    }
    assert_eq!(cpu.banked_register(OperationModes::FIQ, 8), 0x5555_5555);
    assert_eq!(cpu.banked_register(OperationModes::FIQ, 9), 0);
    cpu.enter_operation_mode(OperationModes::FIQ);
    assert_eq!(cpu.register(8), 0x5555_5555);
    assert_eq!(cpu.banked_register(OperationModes::User, 8), 0xAAAA_AAAA);
}

#[test]
fn reset_installs_supervisor_mode() {
    let mut mem = SysMem::new();
    let mut cpu = ARM7TDMI::new();
    cpu.reset(&mut mem);
    assert_eq!(cpu.operation_mode(), OperationModes::Supervisor);
    assert_eq!(cpu.cpu_state_mode(), CpuStateMode::ARM);
    assert_eq!(cpu.cpsr(), 0x0000_00D3);
    assert!(cpu.get_cpsr_bit(CPSRBitsMask::I));
    assert!(cpu.get_cpsr_bit(CPSRBitsMask::F));
    assert!(!cpu.get_cpsr_bit(CPSRBitsMask::T));
    assert_eq!(cpu.spsr(OperationModes::Supervisor), Some(0));
    // The pipeline holds the two words at address 0, and the counter is two ahead.
    assert_eq!(cpu.pipeline_slot(0), Some(0));
    assert_eq!(cpu.pipeline_slot(1), Some(0));
    assert_eq!(cpu.pc(), 8);
}

#[test]
fn reset_from_thumb_state_goes_to_arm_state() {
    let mut mem = SysMem::new();
    let mut cpu = ARM7TDMI::new();
    cpu.enter_operation_mode(OperationModes::IRQ);
    cpu.set_cpsr_bit(CPSRBitsMask::T);
    cpu.set_cpsr_bit(CPSRBitsMask::N);
    cpu.pc_mut(0x0300_0123);
    cpu.reset(&mut mem);
    assert_eq!(cpu.operation_mode(), OperationModes::Supervisor);
    assert_eq!(cpu.cpu_state_mode(), CpuStateMode::ARM);
    assert_eq!(cpu.cpsr(), 0x8000_00D3);
    assert_eq!(cpu.spsr(OperationModes::Supervisor), Some(0x8000_0032));
    assert_eq!(cpu.pc(), 8);
    assert_eq!(cpu.pipeline_slot(0), Some(0));
    assert_eq!(cpu.pipeline_slot(1), Some(0));
}

#[test]
fn flush_fills_both_slots_in_arm_state() {
    let (cpu, _mem) = with_program(&[0xE1A0_0000, 0xE1A0_1001, 0xE1A0_2002]);
    assert_eq!(cpu.pipeline_slot(0), Some(0xE1A0_0000));
    assert_eq!(cpu.pipeline_slot(1), Some(0xE1A0_1001));
    assert_eq!(cpu.pc(), 0x0300_0008);
}

#[test]
fn flush_fills_both_slots_in_thumb_state() {
    let (mut cpu, mut mem) = with_program(&[0x2222_1111, 0x4444_3333]);
    cpu.set_cpsr_bit(CPSRBitsMask::T);
    cpu.pc_mut(0x0300_0002);
    cpu.flush_pipeline(&mut mem);
    assert_eq!(cpu.pipeline_slot(0), Some(0x2222));
    assert_eq!(cpu.pipeline_slot(1), Some(0x3333));
    assert_eq!(cpu.pc(), 0x0300_0006);
}

#[test]
fn flush_aligns_the_program_counter() {
    let (mut cpu, mut mem) = with_program(&[0xE1A0_0000, 0xE1A0_1001, 0xE1A0_2002]);
    cpu.pc_mut(0x0300_0007);
    cpu.flush_pipeline(&mut mem);
    assert_eq!(cpu.pipeline_slot(0), Some(0xE1A0_1001));
    assert_eq!(cpu.pipeline_slot(1), Some(0xE1A0_2002));
    assert_eq!(cpu.pc(), 0x0300_000C);
    cpu.set_cpsr_bit(CPSRBitsMask::T);
    cpu.pc_mut(0x0300_0007);
    cpu.flush_pipeline(&mut mem);
    assert_eq!(cpu.pipeline_slot(0), Some(0xE1A0));
    assert_eq!(cpu.pipeline_slot(1), Some(0x2002));
    assert_eq!(cpu.pc(), 0x0300_000A);
}

#[test]
fn flush_at_an_unmapped_address_enters_address_exceeds() {
    let mut mem = SysMem::new();
    let mut cpu = ARM7TDMI::new();
    cpu.enter_operation_mode(OperationModes::User);
    cpu.pc_mut(0x0100_0000);
    cpu.flush_pipeline(&mut mem);
    assert_eq!(cpu.operation_mode(), OperationModes::Supervisor);
    assert_eq!(cpu.cpsr(), 0x0000_0093);
    assert_eq!(cpu.spsr(OperationModes::Supervisor), Some(0x10));
    assert_eq!(cpu.register(14), 0x0100_0000);
    assert_eq!(cpu.pc(), 0x14 + 8);
    assert_eq!(cpu.pipeline_slot(0), Some(0));
    assert_eq!(cpu.pipeline_slot(1), Some(0));
}

#[test]
fn flush_whose_second_fetch_faults_enters_address_exceeds() {
    let mut mem = SysMem::new();
    let mut cpu = ARM7TDMI::new();
    cpu.reset(&mut mem);
    cpu.pc_mut(0x0300_7FFC);
    cpu.flush_pipeline(&mut mem);
    assert_eq!(cpu.operation_mode(), OperationModes::Supervisor);
    assert_eq!(cpu.register(14), 0x0300_7FFC);
    assert_eq!(cpu.pc(), 0x14 + 8);
}

#[test]
fn irq_from_user_mode() {
    let mut mem = SysMem::new();
    let mut cpu = ARM7TDMI::new();
    cpu.enter_operation_mode(OperationModes::User);
    assert_eq!(cpu.cpsr(), 0x10);
    cpu.pc_mut(0x0300_0100);
    cpu.flush_pipeline(&mut mem);
    assert_eq!(cpu.pc(), 0x0300_0108);
    cpu.set_register(13, 0x0300_7F00);
    cpu.set_register(14, 0x0800_0000);

    cpu.arise_exception(ExceptionType::NormalInterrupt, &mut mem);

    assert_eq!(cpu.cpsr() & 0x1F, 0b10010);
    assert_eq!(cpu.operation_mode(), OperationModes::IRQ);
    assert!(cpu.get_cpsr_bit(CPSRBitsMask::I));
    assert!(!cpu.get_cpsr_bit(CPSRBitsMask::F));
    assert!(!cpu.get_cpsr_bit(CPSRBitsMask::T));
    assert_eq!(cpu.cpsr(), 0x92);
    assert_eq!(cpu.spsr(OperationModes::IRQ), Some(0x10));
    // The link register holds the address of the instruction that was next.
    assert_eq!(cpu.register(14), 0x0300_0100);
    assert_eq!(cpu.banked_register(OperationModes::IRQ, 14), 0x0300_0100);
    // Execution goes on at the vector: the instruction at 0x18 is the next to run,
    // and the program counter reads two instructions ahead of it.
    assert_eq!(cpu.pc().wrapping_sub(8), 0x18);
    assert_eq!(cpu.pc(), 0x20);
    assert_eq!(cpu.pipeline_slot(0), Some(0));
    assert_eq!(cpu.pipeline_slot(1), Some(0));
    // The registers of User mode wait in their bank.
    assert_eq!(cpu.banked_register(OperationModes::User, 13), 0x0300_7F00);
    assert_eq!(cpu.banked_register(OperationModes::User, 14), 0x0800_0000);
}

#[test]
fn every_exception_enters_its_mode_at_its_vector() {
    for (exception, vector, mode, masks_fiq) in exceptions() {
        let mut mem = SysMem::new();
        let mut cpu = distinct_registers();
        cpu.set_cpsr_bit(CPSRBitsMask::C);
        cpu.pc_mut(0x0300_0108);
        let before: u32 = cpu.cpsr();
        assert_eq!(before, 0x2000_0010);
        let file = register_file(&cpu);

        cpu.arise_exception(exception, &mut mem);

        assert_eq!(cpu.operation_mode(), mode, "{:?}", exception);
        assert_eq!(cpu.cpu_state_mode(), CpuStateMode::ARM);
        let code: u32 = modes().iter().find(|(m, _)| *m == mode).unwrap().1;
        let expected: u32 = 0x2000_0080 | code | if masks_fiq { 0x40 } else { 0 };
        assert_eq!(cpu.cpsr(), expected, "{:?}", exception);
        assert_eq!(cpu.spsr(mode), Some(before));
        assert_eq!(cpu.pc(), vector + 8);
        assert_eq!(cpu.pipeline_slot(0), Some(0));
        assert_eq!(cpu.pipeline_slot(1), Some(0));
        let return_address: u32 = match exception {
            ExceptionType::Reset => 0x0300_0108,
            ExceptionType::UndefinedInstruction => 0x0300_0100,
            ExceptionType::SoftwareInterrupt => 0x0300_0100,
            ExceptionType::PrefetchAbort => 0x0300_0104,
            ExceptionType::DataAbort => 0x0300_0108,
            ExceptionType::AddressExceeds => 0x0300_0108,
            ExceptionType::NormalInterrupt => 0x0300_0100,
            ExceptionType::FastInterrupt => 0x0300_0100,
        };
        assert_eq!(cpu.register(14), return_address, "{:?}", exception);
        // Nothing but the link register of the mode and the program counter has changed.
        let after = register_file(&cpu);
        let all = modes();
        for (m, (seen_by, _)) in all.iter().enumerate() {
            for r in 0usize..15 {
                if r == 14 && *seen_by == mode {
                    continue;
                }
                let at: usize = m * 16 + r;
                assert_eq!(after[at], file[at], "{:?} {:?} r{}", exception, seen_by, r);
            }
        }
    }
}

#[test]
fn exceptions_in_thumb_state_return_two_half_words_back() {
    let mut mem = SysMem::new();
    let mut cpu = ARM7TDMI::new();
    cpu.enter_operation_mode(OperationModes::System);
    cpu.set_cpsr_bit(CPSRBitsMask::T);
    cpu.pc_mut(0x0300_0104);
    cpu.arise_exception(ExceptionType::SoftwareInterrupt, &mut mem);
    assert_eq!(cpu.register(14), 0x0300_0100);
    assert_eq!(cpu.spsr(OperationModes::Supervisor), Some(0x3F));
    assert_eq!(cpu.cpsr(), 0x93);
    assert_eq!(cpu.cpu_state_mode(), CpuStateMode::ARM);
    assert_eq!(cpu.pc(), 0x10);

    let mut cpu = ARM7TDMI::new();
    cpu.set_cpsr_bit(CPSRBitsMask::T);
    cpu.pc_mut(0x0300_0104);
    cpu.arise_exception(ExceptionType::PrefetchAbort, &mut mem);
    assert_eq!(cpu.register(14), 0x0300_0104);
    assert_eq!(cpu.pc(), 0x14);
}

#[test]
fn the_return_address_wraps() {
    let mut mem = SysMem::new();
    let mut cpu = ARM7TDMI::new();
    cpu.pc_mut(4);
    cpu.arise_exception(ExceptionType::NormalInterrupt, &mut mem);
    assert_eq!(cpu.register(14), 0xFFFF_FFFC);
}

#[test]
fn leaving_an_exception_restores_the_registers() {
    for (exception, _, target, _) in exceptions() {
        for (home, _) in modes() {
            let shares = home == target;
            if shares {
                continue;
            }
            let mut mem = SysMem::new();
            let mut cpu = distinct_registers();
            cpu.enter_operation_mode(home);
            cpu.set_cpsr_bit(CPSRBitsMask::V);
            let live = registers(&cpu);
            let cpsr: u32 = cpu.cpsr();

            cpu.arise_exception(exception, &mut mem);
            let saved: u32 = cpu.spsr(cpu.operation_mode()).unwrap();
            assert_eq!(saved, cpsr);
            let back = modes().iter().find(|(_, code)| *code == saved & 0x1F).unwrap().0;
            assert_eq!(back, home);
            cpu.enter_operation_mode(back);

            assert_eq!(registers(&cpu)[..15], live[..15], "{:?} from {:?}", exception, home);
        }
    }
}

#[test]
fn a_failed_condition_only_advances_the_pipeline() {
    // SWINE, then three different instructions.
    let program = [0x1F00_0000u32, 0xE1A0_0000, 0xE1A0_1001, 0xE1A0_2002];
    let (mut cpu, mut mem) = with_program(&program);
    cpu.set_cpsr_bit(CPSRBitsMask::Z);
    let live = registers(&cpu);
    let file = register_file(&cpu);
    let cpsr: u32 = cpu.cpsr();
    assert_eq!(cpsr, 0x4000_00D3);
    let saved = cpu.spsr(OperationModes::Supervisor);

    let cycles: u8 = cpu.run_instruction(&mut mem);

    assert_eq!(cycles, 1);
    assert_eq!(cpu.instruction_cycles(), 1);
    assert_eq!(cpu.pipeline_slot(0), Some(0xE1A0_0000));
    assert_eq!(cpu.pipeline_slot(1), Some(0xE1A0_1001));
    assert_eq!(cpu.pc(), 0x0300_000C);
    assert_eq!(registers(&cpu)[..15], live[..15]);
    for m in 0usize..7 {
        assert_eq!(register_file(&cpu)[m * 16..m * 16 + 15], file[m * 16..m * 16 + 15]);
    }
    assert_eq!(cpu.cpsr(), cpsr);
    assert_eq!(cpu.operation_mode(), OperationModes::Supervisor);
    assert_eq!(cpu.cpu_state_mode(), CpuStateMode::ARM);
    assert_eq!(cpu.spsr(OperationModes::Supervisor), saved);
    for address in [0x0300_0000u32, 0x0300_0004, 0x0300_0008, 0x0300_000C] {
        let index = ((address - 0x0300_0000) / 4) as usize;
        assert_eq!(mem.read32(address), Ok(program[index]));
    }
}

#[test]
fn a_met_condition_executes_the_instruction() {
    // SWINE with Z clear is taken.
    let (mut cpu, mut mem) = with_program(&[0x1F00_0000, 0xE1A0_0000, 0xE1A0_1001]);
    cpu.enter_operation_mode(OperationModes::System);
    let cpsr: u32 = cpu.cpsr();
    assert_eq!(cpsr, 0x0000_00DF);

    let cycles: u8 = cpu.run_instruction(&mut mem);

    assert_eq!(cycles, 3);
    assert_eq!(cpu.instruction_cycles(), 3);
    assert_eq!(cpu.operation_mode(), OperationModes::Supervisor);
    assert_eq!(cpu.spsr(OperationModes::Supervisor), Some(cpsr));
    // The instruction that follows the SWI.
    assert_eq!(cpu.register(14), 0x0300_0004);
    assert_eq!(cpu.pc(), 0x08 + 8);
    assert_eq!(cpu.cpsr(), 0x0000_00D3);
    assert_eq!(cpu.pipeline_slot(0), Some(0));
    assert_eq!(cpu.pipeline_slot(1), Some(0));
}

#[test]
fn instructions_of_the_other_families_take_one_cycle() {
    let program = [
        0xE1A0_0000u32,
        0xE000_0090,
        0xE590_0000,
        0xEA00_0000,
        0xE12F_FF1E,
        0xE8BD_8000,
        0xE1A0_0000,
        0xE1A0_0000,
    ];
    let (mut cpu, mut mem) = with_program(&program);
    let live = registers(&cpu);
    for step in 0u32..6 {
        let cycles: u8 = cpu.run_instruction(&mut mem);
        assert_eq!(cycles, 1);
        assert_eq!(cpu.pc(), 0x0300_000C + 4 * step);
        assert_eq!(cpu.pipeline_slot(0), Some(program[step as usize + 1]));
        assert_eq!(cpu.pipeline_slot(1), Some(program[step as usize + 2]));
        assert_eq!(registers(&cpu)[..15], live[..15]);
        assert_eq!(cpu.cpsr(), 0xD3);
    }
}

#[test]
fn an_undefined_opcode_enters_the_undefined_exception() {
    for opcode in [0xE600_0010u32, 0xE300_0000, 0xF1A0_0000, 0xE1C0_00D0] {
        let (mut cpu, mut mem) = with_program(&[opcode, 0xE1A0_0000, 0xE1A0_0000]);
        let cycles: u8 = cpu.run_instruction(&mut mem);
        assert_eq!(cycles, 3, "{:#010x}", opcode);
        assert_eq!(cpu.operation_mode(), OperationModes::Undefined);
        assert_eq!(cpu.cpsr(), 0xDB);
        assert_eq!(cpu.spsr(OperationModes::Undefined), Some(0xD3));
        assert_eq!(cpu.register(14), 0x0300_0004);
        assert_eq!(cpu.pc(), 0x04 + 8);
    }
}

#[test]
fn the_never_condition_is_undefined_whatever_the_flags() {
    let (mut cpu, mut mem) = with_program(&[0xFF00_0000, 0xE1A0_0000, 0xE1A0_0000]);
    cpu.set_cpsr_bit(CPSRBitsMask::N);
    cpu.set_cpsr_bit(CPSRBitsMask::Z);
    cpu.set_cpsr_bit(CPSRBitsMask::C);
    cpu.set_cpsr_bit(CPSRBitsMask::V);
    let cycles: u8 = cpu.run_instruction(&mut mem);
    assert_eq!(cycles, 3);
    assert_eq!(cpu.operation_mode(), OperationModes::Undefined);
    assert_eq!(cpu.spsr(OperationModes::Undefined), Some(0xF000_00D3));
}

#[test]
fn a_step_in_thumb_state_only_advances_the_pipeline() {
    let (mut cpu, mut mem) = with_program(&[0xDF00_DF00, 0x4444_3333, 0x6666_5555]);
    cpu.set_cpsr_bit(CPSRBitsMask::T);
    cpu.pc_mut(0x0300_0000);
    cpu.flush_pipeline(&mut mem);
    assert_eq!(cpu.pc(), 0x0300_0004);
    let live = registers(&cpu);
    let cycles: u8 = cpu.run_instruction(&mut mem);
    assert_eq!(cycles, 1);
    assert_eq!(cpu.pipeline_slot(0), Some(0xDF00));
    assert_eq!(cpu.pipeline_slot(1), Some(0x3333));
    assert_eq!(cpu.pc(), 0x0300_0006);
    assert_eq!(registers(&cpu)[..15], live[..15]);
    assert_eq!(cpu.cpsr(), 0xF3);
    assert_eq!(cpu.cpu_state_mode(), CpuStateMode::THUMB);
    let cycles: u8 = cpu.run_instruction(&mut mem);
    assert_eq!(cycles, 1);
    assert_eq!(cpu.pipeline_slot(0), Some(0x3333));
    assert_eq!(cpu.pipeline_slot(1), Some(0x4444));
    assert_eq!(cpu.pc(), 0x0300_0008);
}

#[test]
fn a_prefetch_beyond_the_memory_enters_address_exceeds() {
    let mut mem = SysMem::new();
    let mut cpu = ARM7TDMI::new();
    cpu.reset(&mut mem);
    cpu.enter_operation_mode(OperationModes::User);
    cpu.pc_mut(0x0300_7FF8);
    cpu.flush_pipeline(&mut mem);
    assert_eq!(cpu.pc(), 0x0300_8000);
    assert_eq!(cpu.operation_mode(), OperationModes::User);

    let cycles: u8 = cpu.run_instruction(&mut mem);

    assert_eq!(cycles, 3);
    assert_eq!(cpu.operation_mode(), OperationModes::Supervisor);
    assert_eq!(cpu.spsr(OperationModes::Supervisor), Some(0xD0));
    assert_eq!(cpu.register(14), 0x0300_8000);
    assert_eq!(cpu.pc(), 0x14 + 8);
    assert_eq!(cpu.pipeline_slot(0), Some(0));
    assert_eq!(cpu.pipeline_slot(1), Some(0));
}

#[test]
fn a_requested_irq_is_taken_before_the_next_instruction() {
    let (mut cpu, mut mem) = with_program(&[0xE1A0_0000, 0xE1A0_0000, 0xE1A0_0000]);
    cpu.enter_operation_mode(OperationModes::User);
    cpu.clear_cpsr_bit(CPSRBitsMask::I);
    cpu.clear_cpsr_bit(CPSRBitsMask::F);
    assert_eq!(cpu.cpsr(), 0x10);
    cpu.request_irq();

    let cycles: u8 = cpu.run_instruction(&mut mem);

    // Two cycles for the entry, one for the instruction at the vector, whose
    // condition (EQ) the flags do not meet.
    assert_eq!(cycles, 3);
    assert_eq!(cpu.operation_mode(), OperationModes::IRQ);
    assert_eq!(cpu.cpsr(), 0x92);
    assert_eq!(cpu.spsr(OperationModes::IRQ), Some(0x10));
    assert_eq!(cpu.register(14), 0x0300_0000);
    assert_eq!(cpu.pc(), 0x18 + 8 + 4);

    // The request is used up.
    cpu.clear_cpsr_bit(CPSRBitsMask::I);
    let cycles: u8 = cpu.run_instruction(&mut mem);
    assert_eq!(cycles, 1);
    assert_eq!(cpu.operation_mode(), OperationModes::IRQ);
    assert_eq!(cpu.pc(), 0x18 + 8 + 8);
}

#[test]
fn a_masked_irq_waits() {
    let (mut cpu, mut mem) = with_program(&[0xE1A0_0000, 0xE1A0_0000, 0xE1A0_0000, 0xE1A0_0000]);
    assert!(cpu.get_cpsr_bit(CPSRBitsMask::I));
    cpu.request_irq();
    let cycles: u8 = cpu.run_instruction(&mut mem);
    assert_eq!(cycles, 1);
    assert_eq!(cpu.operation_mode(), OperationModes::Supervisor);
    assert_eq!(cpu.pc(), 0x0300_000C);

    cpu.clear_cpsr_bit(CPSRBitsMask::I);
    let cycles: u8 = cpu.run_instruction(&mut mem);
    assert_eq!(cycles, 3);
    assert_eq!(cpu.operation_mode(), OperationModes::IRQ);
    assert_eq!(cpu.register(14), 0x0300_0004);
    assert_eq!(cpu.spsr(OperationModes::IRQ), Some(0x53));
}

#[test]
fn a_fast_interrupt_comes_first() {
    let (mut cpu, mut mem) = with_program(&[0xE1A0_0000, 0xE1A0_0000, 0xE1A0_0000]);
    cpu.clear_cpsr_bit(CPSRBitsMask::I);
    cpu.clear_cpsr_bit(CPSRBitsMask::F);
    cpu.request_irq();
    cpu.request_fiq();

    let cycles: u8 = cpu.run_instruction(&mut mem);

    assert_eq!(cycles, 3);
    assert_eq!(cpu.operation_mode(), OperationModes::FIQ);
    assert_eq!(cpu.cpsr(), 0xD1);
    assert_eq!(cpu.spsr(OperationModes::FIQ), Some(0x13));
    assert_eq!(cpu.register(14), 0x0300_0000);
    assert_eq!(cpu.pc(), 0x1C + 8 + 4);

    // The normal interrupt is still asked for, and is taken once it is let in.
    cpu.clear_cpsr_bit(CPSRBitsMask::I);
    let cycles: u8 = cpu.run_instruction(&mut mem);
    assert_eq!(cycles, 3);
    assert_eq!(cpu.operation_mode(), OperationModes::IRQ);
    assert_eq!(cpu.spsr(OperationModes::IRQ), Some(0x51));
    assert_eq!(cpu.register(14), 0x1C + 4);
}

#[test]
fn a_masked_fast_interrupt_waits() {
    let (mut cpu, mut mem) = with_program(&[0xE1A0_0000, 0xE1A0_0000, 0xE1A0_0000]);
    cpu.clear_cpsr_bit(CPSRBitsMask::I);
    cpu.request_fiq();
    let cycles: u8 = cpu.run_instruction(&mut mem);
    assert_eq!(cycles, 1);
    assert_eq!(cpu.operation_mode(), OperationModes::Supervisor);
}

#[test]
fn an_interrupt_is_followed_by_the_instruction_at_its_vector() {
    let mut mem = SysMem::new();
    let mut cpu = ARM7TDMI::new();
    cpu.reset(&mut mem);
    cpu.clear_cpsr_bit(CPSRBitsMask::I);
    cpu.set_cpsr_bit(CPSRBitsMask::Z);
    cpu.request_irq();
    // The opcode at the vector is zero, ANDEQ, which the flags meet.
    let cycles: u8 = cpu.run_instruction(&mut mem);
    assert_eq!(cycles, 3);
    assert_eq!(cpu.operation_mode(), OperationModes::IRQ);
    assert_eq!(cpu.register(14), 0);
    assert_eq!(cpu.pc(), 0x18 + 8 + 4);
    assert_eq!(cpu.cpsr(), 0x4000_00D2);
}

#[test]
fn steps_keep_the_invariants() {
    let program = [
        0xE1A0_0000u32,
        0x1F00_0000,
        0xE600_0010,
        0xEF00_0000,
        0xE300_0000,
        0xF000_0000,
        0xE1A0_0000,
    ];
    let (mut cpu, mut mem) = with_program(&program);
    cpu.clear_cpsr_bit(CPSRBitsMask::I);
    for step in 0u32..200 {
        if step % 7 == 3 {
            cpu.request_irq();
        }
        if step % 31 == 5 {
            cpu.request_fiq();
            cpu.clear_cpsr_bit(CPSRBitsMask::F);
        }
        if step % 11 == 0 {
            cpu.clear_cpsr_bit(CPSRBitsMask::I);
        }
        if step % 40 == 20 {
            cpu.pc_mut(0x0300_0000);
            cpu.flush_pipeline(&mut mem);
        }
        let cycles: u8 = cpu.run_instruction(&mut mem);
        assert!(cycles >= 1 && cycles <= 5);
        assert_eq!(cycles as u32, cpu.instruction_cycles());
        let code: u32 = modes().iter().find(|(m, _)| *m == cpu.operation_mode()).unwrap().1;
        assert_eq!(cpu.cpsr() & 0x1F, code);
        assert_eq!(cpu.get_cpsr_bit(CPSRBitsMask::T), cpu.cpu_state_mode() == CpuStateMode::THUMB);
        assert_eq!(cpu.pc() % 4, 0);
        assert!(cpu.pipeline_slot(0).is_some());
        assert!(cpu.pipeline_slot(1).is_some());
    }
}

#[test]
fn modes_have_their_codes() {
    for (mode, code) in modes() {
        assert_eq!(mode.code(), code);
    }
    assert_eq!(OperationModes::User.code(), 16);
    assert_eq!(OperationModes::System.code(), 31);
}

#[test]
fn named_bits_have_their_masks() {
    assert_eq!(CPSRBitsMask::N.mask(), 1 << 31);
    assert_eq!(CPSRBitsMask::Z.mask(), 1 << 30);
    assert_eq!(CPSRBitsMask::C.mask(), 1 << 29);
    assert_eq!(CPSRBitsMask::V.mask(), 1 << 28);
    assert_eq!(CPSRBitsMask::I.mask(), 1 << 7);
    assert_eq!(CPSRBitsMask::F.mask(), 1 << 6);
    assert_eq!(CPSRBitsMask::T.mask(), 1 << 5);
}

#[test]
fn exceptions_have_their_vectors_and_modes() {
    let mut expected_index: usize = 0;
    for (exception, vector, mode, _) in exceptions() {
        assert_eq!(exception.vector(), vector);
        assert_eq!(exception.mode(), mode);
        assert_eq!(exception.index(), expected_index);
        assert_eq!(vector, 4 * expected_index as u32);
        expected_index += 1;
    }
}

#[test]
fn requests_for_interrupts_are_seen() {
    let (mut cpu, mut mem) = with_program(&[0xE1A0_0000, 0xE1A0_0000, 0xE1A0_0000]);
    assert!(!cpu.irq_pending());
    assert!(!cpu.fiq_pending());
    cpu.request_irq();
    assert!(cpu.irq_pending());
    assert!(!cpu.fiq_pending());
    cpu.request_fiq();
    assert!(cpu.fiq_pending());
    // Both are masked after a reset and stay pending.
    assert_eq!(cpu.run_instruction(&mut mem), 1);
    assert!(cpu.irq_pending());
    assert!(cpu.fiq_pending());
    cpu.clear_cpsr_bit(CPSRBitsMask::F);
    assert_eq!(cpu.run_instruction(&mut mem), 3);
    assert!(cpu.irq_pending());
    assert!(!cpu.fiq_pending());
}
