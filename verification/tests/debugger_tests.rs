use emu6502::cpu::{Error, InstructionTypes, CPU};
use emu6502::debugger::{action_of, print_mem, report_memory, Action, Debugger, MemReport, Turn};
use emu6502::memory;
use emu6502::memory::Memory;

fn turn(
    debugger: &mut Debugger,
    action: Action,
    cpu: &mut CPU,
    mem: &mut Memory,
) -> Option<Result<InstructionTypes, Error>> {
    if debugger.next_turn(cpu) == Turn::RUN || action == Action::STEP {
        assert!(cpu.can_step(mem));
    }
    debugger
        .execute_next_user_action(action, cpu, mem)
        .map(|step| step.map(|executed| executed.inst.inst))
}

#[test]
fn action_of_knows_six_commands() {
    assert_eq!(action_of("HELP"), Action::HELP);
    assert_eq!(action_of("STEP"), Action::STEP);
    assert_eq!(action_of("QUIT"), Action::QUIT);
    assert_eq!(action_of("CONTINUE"), Action::CONTINUE);
    assert_eq!(action_of("PRINT REGS"), Action::PRINT_REGS);
    assert_eq!(action_of("PRINT MEM"), Action::PRINT_MEM);
}

#[test]
fn action_of_takes_the_word_as_it_is() {
    assert_eq!(action_of("help"), Action::UNKNOWN);
    assert_eq!(action_of(" HELP"), Action::UNKNOWN);
    assert_eq!(action_of("HELP\n"), Action::UNKNOWN);
    assert_eq!(action_of("PRINT  MEM"), Action::UNKNOWN);
    assert_eq!(action_of("PRINT"), Action::UNKNOWN);
    assert_eq!(action_of(""), Action::UNKNOWN);
    assert_eq!(action_of("UNKNOWN"), Action::UNKNOWN);
}

#[test]
fn user_action_is_trimmed_and_put_in_upper_case() {
    let debugger = Debugger::new(true);
    assert_eq!(debugger.get_next_user_action(Some("help\n")), Action::HELP);
    assert_eq!(debugger.get_next_user_action(Some("  HELP  ")), Action::HELP);
    assert_eq!(debugger.get_next_user_action(Some("Step\r\n")), Action::STEP);
    assert_eq!(debugger.get_next_user_action(Some("\tquit")), Action::QUIT);
    assert_eq!(debugger.get_next_user_action(Some("continue\n")), Action::CONTINUE);
    assert_eq!(debugger.get_next_user_action(Some(" print regs \n")), Action::PRINT_REGS);
    assert_eq!(debugger.get_next_user_action(Some("Print Mem\n")), Action::PRINT_MEM);
}

#[test]
fn user_action_follows_the_standard_library_on_other_scripts() {
    let debugger = Debugger::new(true);
    assert_eq!(debugger.get_next_user_action(Some("\u{2003}quit\u{00A0}")), Action::QUIT);
    assert_eq!(debugger.get_next_user_action(Some("\u{017F}tep\n")), Action::STEP);
}

#[test]
fn user_action_that_is_no_command_is_unknown() {
    let debugger = Debugger::new(true);
    assert_eq!(debugger.get_next_user_action(Some("\n")), Action::UNKNOWN);
    assert_eq!(debugger.get_next_user_action(Some("")), Action::UNKNOWN);
    assert_eq!(debugger.get_next_user_action(Some("print  mem\n")), Action::UNKNOWN);
    assert_eq!(debugger.get_next_user_action(Some("steps\n")), Action::UNKNOWN);
    assert_eq!(debugger.get_next_user_action(Some("print_regs\n")), Action::UNKNOWN);
    assert_eq!(debugger.get_next_user_action(None), Action::UNKNOWN);
}

#[test]
fn new_debugger_asks() {
    let cpu = CPU::new();
    for enabled in [true, false] {
        let debugger = Debugger::new(enabled);
        assert_eq!(debugger.is_enabled(), enabled);
        assert!(!debugger.is_continuing());
        assert_eq!(debugger.next_turn(&cpu), Turn::ASK);
    }
}

#[test]
fn quit_halts_the_processor() {
    let mut mem = Memory::new();
    let mut cpu = CPU::new();
    let mut debugger = Debugger::new(true);
    assert_eq!(turn(&mut debugger, Action::QUIT, &mut cpu, &mut mem), None);
    assert!(cpu.check_halt());
    assert_eq!((cpu.reg_pc, cpu.total_cycles()), (0, 0));
    assert!(!debugger.is_continuing());
}

#[test]
fn step_steps_once() {
    let mut mem = Memory::new();
    mem.load_program_bytes(0, &vec![0xA9, 0x05], true).unwrap();
    let mut cpu = CPU::new();
    let mut debugger = Debugger::new(true);
    assert_eq!(
        turn(&mut debugger, Action::STEP, &mut cpu, &mut mem),
        Some(Ok(InstructionTypes::LDA_IMMEDIATE))
    );
    assert_eq!((cpu.reg_pc, cpu.reg_accum, cpu.total_cycles()), (2, 5, 2));
    assert!(!cpu.check_halt());
    assert_eq!(debugger.next_turn(&cpu), Turn::ASK);
}

#[test]
fn step_reports_a_failed_fetch() {
    let mut mem = Memory::new();
    mem.write_byte(0, 0xFF, true).unwrap();
    let mut cpu = CPU::new();
    let mut debugger = Debugger::new(true);
    assert_eq!(
        turn(&mut debugger, Action::STEP, &mut cpu, &mut mem),
        Some(Err(Error::FETCH_ERROR_UNKNOWN_INST(0xFF)))
    );
    assert_eq!((cpu.reg_pc, cpu.total_cycles()), (0, 0));
}

#[test]
fn printing_and_unknown_actions_change_nothing() {
    let mut mem = Memory::new();
    mem.load_program_bytes(0, &vec![0xA9, 0x05], true).unwrap();
    let mut cpu = CPU::new();
    let mut debugger = Debugger::new(true);
    for action in [Action::UNKNOWN, Action::HELP, Action::PRINT_REGS, Action::PRINT_MEM] {
        assert_eq!(turn(&mut debugger, action, &mut cpu, &mut mem), None);
        assert_eq!((cpu.reg_pc, cpu.reg_accum, cpu.total_cycles()), (0, 0, 0));
        assert!(!cpu.check_halt());
        assert!(!debugger.is_continuing());
        assert_eq!(mem.read_n_bytes(0, 3, true), Ok(vec![0xA9, 0x05, 0x00]));
    }
}

#[test]
fn continue_runs_until_the_break() {
    let mut mem = Memory::new();
    mem.load_program_bytes(0x0200, &vec![0xA9, 0x05, 0x18], true).unwrap();
    let mut cpu = CPU::new();
    cpu.reg_pc = 0x0200;
    let mut debugger = Debugger::new(true);
    assert_eq!(turn(&mut debugger, Action::CONTINUE, &mut cpu, &mut mem), None);
    assert!(debugger.is_continuing());
    assert_eq!(cpu.reg_pc, 0x0200);

    assert_eq!(debugger.next_turn(&cpu), Turn::RUN);
    assert_eq!(
        turn(&mut debugger, Action::QUIT, &mut cpu, &mut mem),
        Some(Ok(InstructionTypes::LDA_IMMEDIATE))
    );
    assert!(!cpu.check_halt());
    assert_eq!(debugger.next_turn(&cpu), Turn::RUN);
    assert_eq!(
        turn(&mut debugger, Action::UNKNOWN, &mut cpu, &mut mem),
        Some(Ok(InstructionTypes::CLEAR_CARRY))
    );
    assert_eq!(debugger.next_turn(&cpu), Turn::RUN);
    assert_eq!(
        turn(&mut debugger, Action::UNKNOWN, &mut cpu, &mut mem),
        Some(Ok(InstructionTypes::BRK))
    );
    assert_eq!(cpu.reg_ps_bc, 1);
    assert!(debugger.is_continuing());

    assert_eq!(debugger.next_turn(&cpu), Turn::BREAKPOINT);
    assert_eq!(turn(&mut debugger, Action::PRINT_REGS, &mut cpu, &mut mem), None);
    assert!(!debugger.is_continuing());
    assert_eq!(debugger.next_turn(&cpu), Turn::ASK);
    assert_eq!((cpu.reg_pc, cpu.total_cycles()), (0x0204, 11));
}

#[test]
fn after_a_break_the_action_is_done() {
    let mut mem = Memory::new();
    mem.load_program_bytes(0x0200, &vec![0x18, 0x18], true).unwrap();
    let mut cpu = CPU::new();
    cpu.reg_pc = 0x0200;
    cpu.reg_ps_bc = 1;
    let mut debugger = Debugger::new(true);
    turn(&mut debugger, Action::CONTINUE, &mut cpu, &mut mem);
    assert_eq!(debugger.next_turn(&cpu), Turn::BREAKPOINT);
    assert_eq!(
        turn(&mut debugger, Action::STEP, &mut cpu, &mut mem),
        Some(Ok(InstructionTypes::CLEAR_CARRY))
    );
    assert!(!debugger.is_continuing());
    assert_eq!(cpu.reg_pc, 0x0201);

    turn(&mut debugger, Action::CONTINUE, &mut cpu, &mut mem);
    assert_eq!(debugger.next_turn(&cpu), Turn::BREAKPOINT);
    assert_eq!(turn(&mut debugger, Action::CONTINUE, &mut cpu, &mut mem), None);
    assert!(debugger.is_continuing());
    assert_eq!(debugger.next_turn(&cpu), Turn::BREAKPOINT);
    assert_eq!(turn(&mut debugger, Action::QUIT, &mut cpu, &mut mem), None);
    assert!(cpu.check_halt());
    assert!(!debugger.is_continuing());
}

#[test]
fn a_break_flag_counts_by_its_lowest_bit() {
    let mut mem = Memory::new();
    mem.load_program_bytes(0x0200, &vec![0x18], true).unwrap();
    let mut cpu = CPU::new();
    cpu.reg_pc = 0x0200;
    let mut debugger = Debugger::new(true);
    turn(&mut debugger, Action::CONTINUE, &mut cpu, &mut mem);
    cpu.reg_ps_bc = 2;
    assert_eq!(debugger.next_turn(&cpu), Turn::RUN);
    cpu.reg_ps_bc = 3;
    assert_eq!(debugger.next_turn(&cpu), Turn::BREAKPOINT);
}

#[test]
fn print_mem_dumps_the_bytes_asked_for() {
    let mut mem = Memory::new();
    mem.load_program_bytes(0, &vec![0xA9, 0x05], true).unwrap();
    let expected = format!("Length: 3 (0x3) bytes\n0000:   a9 05 00{}...", " ".repeat(45));
    assert_eq!(print_mem(&mem, "0\n", "3\n"), MemReport::DUMP(expected));
}

#[test]
fn print_mem_of_a_full_row() {
    let mut mem = Memory::new();
    mem.load_program_bytes(0x0200, &b"0123456789abcdef".to_vec(), true).unwrap();
    assert_eq!(
        print_mem(&mem, " 512 ", "\t16\r\n"),
        MemReport::DUMP(
            "Length: 16 (0x10) bytes\n0000:   30 31 32 33  34 35 36 37  38 39 61 62  63 64 65 66   0123456789abcdef"
                .to_string()
        )
    );
}

#[test]
fn print_mem_of_two_rows_is_the_dump_of_the_crate() {
    let mut mem = Memory::new();
    let bytes: Vec<u8> = (0..40u8).map(|b| b.wrapping_mul(7)).collect();
    mem.load_program_bytes(0x0100, &bytes, false).unwrap();
    let expected = pretty_hex::pretty_hex(&bytes);
    assert!(expected.starts_with("Length: 40 (0x28) bytes\n0000:   00 07 0e 15  "));
    assert!(expected.contains("\n0020:   e0 e7 ee f5  fc 03 0a 11"));
    assert_eq!(print_mem(&mem, "256", "40"), MemReport::DUMP(expected));
}

#[test]
fn print_mem_of_no_bytes() {
    let mem = Memory::new();
    assert_eq!(
        print_mem(&mem, "65535", "0"),
        MemReport::DUMP("Length: 0 (0x0) bytes\n".to_string())
    );
}

#[test]
fn print_mem_reads_the_stack_page() {
    let mut mem = Memory::new();
    mem.push_onto_stack(0xFF, &vec![0x41, 0x42]).unwrap();
    let expected = format!("Length: 2 (0x2) bytes\n0000:   42 41{}BA", " ".repeat(48));
    assert_eq!(print_mem(&mem, "510", "2"), MemReport::DUMP(expected));
}

#[test]
fn print_mem_with_a_bad_offset() {
    let mem = Memory::new();
    for offset in ["", "x", "65536", "-1", "0x10", "1 2", "12a"] {
        assert_eq!(print_mem(&mem, offset, "4"), MemReport::BAD_OFFSET);
    }
    assert_eq!(print_mem(&mem, "nothing", "nothing"), MemReport::BAD_OFFSET);
}

#[test]
fn print_mem_with_a_bad_count() {
    let mem = Memory::new();
    for count in ["", "abc", "-1", "1.5", "18446744073709551616"] {
        assert_eq!(print_mem(&mem, "0", count), MemReport::BAD_COUNT);
    }
}

#[test]
fn print_mem_takes_decimal_numbers_with_a_plus() {
    let mem = Memory::new();
    assert_eq!(
        print_mem(&mem, "+0", "+1"),
        MemReport::DUMP(format!("Length: 1 (0x1) bytes\n0000:   00{}.", " ".repeat(51)))
    );
    assert_eq!(
        print_mem(&mem, "007", "0001"),
        MemReport::DUMP(format!("Length: 1 (0x1) bytes\n0000:   00{}.", " ".repeat(51)))
    );
}

#[test]
fn print_mem_past_the_last_address_fails() {
    let mem = Memory::new();
    assert_eq!(print_mem(&mem, "65535", "2"), MemReport::READ_FAILED(2, 65535));
    assert_eq!(print_mem(&mem, "0", "70000"), MemReport::READ_FAILED(70000, 0));
    assert_eq!(
        print_mem(&mem, "1", "18446744073709551615"),
        MemReport::READ_FAILED(usize::MAX, 1)
    );
}

#[test]
fn report_memory_for_each_outcome() {
    let mut mem = Memory::new();
    mem.write_byte(0x1000, 0x7E, true).unwrap();
    assert_eq!(report_memory(&mem, None, Some(1)), MemReport::BAD_OFFSET);
    assert_eq!(report_memory(&mem, None, None), MemReport::BAD_OFFSET);
    assert_eq!(report_memory(&mem, Some(0), None), MemReport::BAD_COUNT);
    assert_eq!(report_memory(&mem, Some(0xFFFF), Some(2)), MemReport::READ_FAILED(2, 0xFFFF));
    assert_eq!(
        report_memory(&mem, Some(0x1000), Some(1)),
        MemReport::DUMP(format!("Length: 1 (0x1) bytes\n0000:   7e{}~", " ".repeat(51)))
    );
    assert_eq!(mem.read_byte(0x1000, true), Ok(0x7E));
    assert_eq!(memory::STACK_START, 0x0100);
}
