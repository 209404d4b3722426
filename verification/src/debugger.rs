//! The decisions of the line-oriented debugger.
//!
//! Reading lines and printing belong to the driver. It asks `next_turn` what
//! comes next, reads a command where one is wanted, and hands it to
//! `execute_next_user_action`, which changes the debugger, the processor and
//! the memory and says what was done.

use crate::cpu;
use crate::cpu::{CpuState, Executed, ExecutedView, CPU};
use crate::memory;
use crate::memory::Memory;
use crate::text;
use vstd::prelude::*;

verus! {

/// What the user can ask for.
#[allow(non_camel_case_types)]
#[derive(Debug, Clone, Copy, PartialEq, Eq, Structural)]
pub enum Action {
    UNKNOWN,
    HELP,
    QUIT,
    STEP,
    CONTINUE,
    PRINT_REGS,
    PRINT_MEM,
}

/// What comes next: a step without asking, a prompt, or a prompt after the
/// processor has run into a break.
#[allow(non_camel_case_types)]
#[derive(Debug, Clone, Copy, PartialEq, Eq, Structural)]
pub enum Turn {
    RUN,
    ASK,
    BREAKPOINT,
}

pub struct Debugger {
    enabled: bool,
    in_continue: bool,
}

/// The debugger as a plain value.
pub struct DebuggerState {
    pub enabled: bool,
    pub in_continue: bool,
}

impl View for Debugger {
    type V = DebuggerState;

    closed spec fn view(&self) -> DebuggerState {
        DebuggerState { enabled: self.enabled, in_continue: self.in_continue }
    }
}

/// The action that a command names, once it is trimmed and in upper case.
pub open spec fn action_named(word: Seq<char>) -> Action {
    if word == "HELP"@ {
        Action::HELP
    } else if word == "STEP"@ {
        Action::STEP
    } else if word == "QUIT"@ {
        Action::QUIT
    } else if word == "CONTINUE"@ {
        Action::CONTINUE
    } else if word == "PRINT REGS"@ {
        Action::PRINT_REGS
    } else if word == "PRINT MEM"@ {
        Action::PRINT_MEM
    } else {
        Action::UNKNOWN
    }
}

/// The action that a line of input asks for: the one that it names when
/// trimmed and put in upper case. A line that could not be read asks for
/// nothing known.
pub open spec fn action_asked(line: Option<Seq<char>>) -> Action {
    match line {
        Some(l) => action_named(text::uppercased(text::trimmed(l))),
        None => Action::UNKNOWN,
    }
}

/// The turn that comes next. While continuing, the processor runs until its
/// break flag is set.
pub open spec fn turn_of(d: DebuggerState, s: CpuState) -> Turn {
    if d.in_continue {
        if cpu::flag_bit(s.bc) == 1 {
            Turn::BREAKPOINT
        } else {
            Turn::RUN
        }
    } else {
        Turn::ASK
    }
}

/// Debugger, processor and memory after a turn, with the report of the step
/// if the turn made one.
pub struct Turned {
    pub debugger: DebuggerState,
    pub cpu: CpuState,
    pub mem: Seq<u8>,
    pub step: Option<Result<ExecutedView, cpu::Error>>,
}

/// What an action does: `QUIT` halts the processor, `STEP` steps it,
/// `CONTINUE` lets the debugger run on without asking. The other actions
/// only have something printed and change nothing.
pub open spec fn acted(d: DebuggerState, action: Action, s: CpuState, mem: Seq<u8>) -> Turned {
    match action {
        Action::QUIT => Turned {
            debugger: d,
            cpu: CpuState { halted: true, ..s },
            mem: mem,
            step: None,
        },
        Action::STEP => {
            let after = cpu::stepped(s, mem);
            Turned { debugger: d, cpu: after.cpu, mem: after.mem, step: Some(after.report) }
        },
        Action::CONTINUE => Turned {
            debugger: DebuggerState { in_continue: true, ..d },
            cpu: s,
            mem: mem,
            step: None,
        },
        _ => Turned { debugger: d, cpu: s, mem: mem, step: None },
    }
}

/// What a turn does. A running debugger steps the processor and ignores the
/// action. One that has run into a break stops continuing and then acts as
/// asked, and so does one that was not continuing.
pub open spec fn turned(d: DebuggerState, action: Action, s: CpuState, mem: Seq<u8>) -> Turned {
    match turn_of(d, s) {
        Turn::RUN => {
            let after = cpu::stepped(s, mem);
            Turned { debugger: d, cpu: after.cpu, mem: after.mem, step: Some(after.report) }
        },
        _ => acted(DebuggerState { in_continue: false, ..d }, action, s, mem),
    }
}

/// The view of a step's report inside an `Option`.
pub open spec fn report_view(r: Option<Result<Executed, cpu::Error>>) -> Option<
    Result<ExecutedView, cpu::Error>,
> {
    match r {
        Some(step) => Some(cpu::step_view(step)),
        None => None,
    }
}

/// The action that a command names, see `action_named`.
pub fn action_of(word: &str) -> (action: Action)
    ensures
        action == action_named(word@),
{
    let word = word.to_owned();
    if word == "HELP".to_owned() {
        Action::HELP
    } else if word == "STEP".to_owned() {
        Action::STEP
    } else if word == "QUIT".to_owned() {
        Action::QUIT
    } else if word == "CONTINUE".to_owned() {
        Action::CONTINUE
    } else if word == "PRINT REGS".to_owned() {
        Action::PRINT_REGS
    } else if word == "PRINT MEM".to_owned() {
        Action::PRINT_MEM
    } else {
        Action::UNKNOWN
    }
}

impl Debugger {
    pub fn new(enabled: bool) -> (debugger: Debugger)
        ensures
            debugger@ == (DebuggerState { enabled: enabled, in_continue: false }),
    {
        Debugger { enabled: enabled, in_continue: false }
    }

    pub fn is_enabled(&self) -> (enabled: bool)
        ensures
            enabled == self@.enabled,
    {
        self.enabled
    }

    /// Whether the debugger lets the processor run until it breaks.
    pub fn is_continuing(&self) -> (continuing: bool)
        ensures
            continuing == self@.in_continue,
    {
        self.in_continue
    }

    /// What the driver has to do before the next call of
    /// `execute_next_user_action`, see `turn_of`.
    pub fn next_turn(&self, cpu: &CPU) -> (turn: Turn)
        ensures
            turn == turn_of(self@, cpu@),
    {
        let break_flag: u8 = cpu.break_command();
        assert((break_flag & 0x1) == break_flag % 2) by (bit_vector);
        if self.in_continue {
            if (break_flag & 0x1) == 1 {
                Turn::BREAKPOINT
            } else {
                Turn::RUN
            }
        } else {
            Turn::ASK
        }
    }

    /// The action that the user's line asks for, see `action_asked`. `None`
    /// stands for a line that could not be read.
    pub fn get_next_user_action(&self, line: Option<&str>) -> (action: Action)
        ensures
            action == action_asked(
                match line {
                    Some(l) => Some(l@),
                    None => None,
                },
            ),
    {
        match line {
            Some(l) => {
                let word = text::to_uppercase(text::trim(l));
                action_of(word.as_str())
            },
            None => Action::UNKNOWN,
        }
    }

    /// Does what the user asked for, see `acted`.
    pub fn execute_action(&mut self, action: Action, cpu: &mut CPU, mem: &mut Memory) -> (step:
        Option<Result<Executed, cpu::Error>>)
        requires
            action == Action::STEP ==> cpu::steppable(old(cpu)@, old(mem)@),
        ensures
            final(self)@ == acted(old(self)@, action, old(cpu)@, old(mem)@).debugger,
            final(cpu)@ == acted(old(self)@, action, old(cpu)@, old(mem)@).cpu,
            final(mem)@ == acted(old(self)@, action, old(cpu)@, old(mem)@).mem,
            report_view(step) == acted(old(self)@, action, old(cpu)@, old(mem)@).step,
    {
        match action {
            Action::QUIT => {
                cpu.set_halt();
                None
            },
            Action::STEP => Some(cpu.step(mem)),
            Action::CONTINUE => {
                self.in_continue = true;
                None
            },
            _ => None,
        }
    }

    /// One turn of the debugger, see `turned`. `action` is what the user
    /// asked for; on a `RUN` turn nobody was asked and it is ignored.
    pub fn execute_next_user_action(&mut self, action: Action, cpu: &mut CPU, mem: &mut Memory) -> (step:
        Option<Result<Executed, cpu::Error>>)
        requires
            turn_of(old(self)@, old(cpu)@) == Turn::RUN || action == Action::STEP
                ==> cpu::steppable(old(cpu)@, old(mem)@),
        ensures
            final(self)@ == turned(old(self)@, action, old(cpu)@, old(mem)@).debugger,
            final(cpu)@ == turned(old(self)@, action, old(cpu)@, old(mem)@).cpu,
            final(mem)@ == turned(old(self)@, action, old(cpu)@, old(mem)@).mem,
            report_view(step) == turned(old(self)@, action, old(cpu)@, old(mem)@).step,
    {
        let break_flag: u8 = cpu.break_command();
        assert((break_flag & 0x1) == break_flag % 2) by (bit_vector);
        if self.in_continue {
            if (break_flag & 0x1) == 1 {
                self.in_continue = false;
                self.execute_action(action, cpu, mem)
            } else {
                Some(cpu.step(mem))
            }
        } else {
            self.execute_action(action, cpu, mem)
        }
    }
}

/// What a request to show memory comes to.
#[allow(non_camel_case_types)]
#[derive(Debug, PartialEq, Eq)]
pub enum MemReport {
    /// The bytes were read: their hex dump.
    DUMP(String),
    /// The bytes could not be read: how many were asked for, and from where.
    READ_FAILED(usize, u16),
    /// The number of bytes was no number.
    BAD_COUNT,
    /// The offset was no address.
    BAD_OFFSET,
}

/// A `MemReport` with the dump as a sequence of characters.
#[allow(non_camel_case_types)]
pub enum MemReportView {
    DUMP(Seq<char>),
    READ_FAILED(usize, u16),
    BAD_COUNT,
    BAD_OFFSET,
}

impl View for MemReport {
    type V = MemReportView;

    open spec fn view(&self) -> MemReportView {
        match self {
            MemReport::DUMP(dump) => MemReportView::DUMP(dump@),
            MemReport::READ_FAILED(count, offset) => MemReportView::READ_FAILED(*count, *offset),
            MemReport::BAD_COUNT => MemReportView::BAD_COUNT,
            MemReport::BAD_OFFSET => MemReportView::BAD_OFFSET,
        }
    }
}

/// The number of bytes that a parsed number asks for: the number itself, if
/// it can be a length on this machine.
pub open spec fn count_of(number: Option<u64>) -> Option<usize> {
    match number {
        Some(n) => if n <= usize::MAX {
            Some(n as usize)
        } else {
            None
        },
        None => None,
    }
}

/// What showing `count` bytes from `offset` comes to. The offset is looked at
/// first. The bytes are read with the stack page open.
pub open spec fn mem_report(mem: Seq<u8>, offset: Option<u16>, count: Option<usize>) -> MemReportView {
    match offset {
        None => MemReportView::BAD_OFFSET,
        Some(o) => match count {
            None => MemReportView::BAD_COUNT,
            Some(n) => match memory::read_range_result(mem, o as int, n as int, false) {
                Ok(bytes) => MemReportView::DUMP(text::hex_dump_text(bytes)),
                Err(_) => MemReportView::READ_FAILED(n, o),
            },
        },
    }
}

/// Shows `count` bytes from `offset`, see `mem_report`.
pub fn report_memory(mem: &Memory, offset: Option<u16>, count: Option<usize>) -> (report: MemReport)
    ensures
        report@ == mem_report(mem@, offset, count),
{
    match offset {
        None => MemReport::BAD_OFFSET,
        Some(mem_offset) => match count {
            None => MemReport::BAD_COUNT,
            Some(num_bytes) => match mem.read_n_bytes(mem_offset, num_bytes, false) {
                Ok(bytes_vec) => MemReport::DUMP(text::hex_dump(&bytes_vec)),
                Err(_) => MemReport::READ_FAILED(num_bytes, mem_offset),
            },
        },
    }
}

/// Shows the bytes that two lines of input ask for: the first holds the
/// offset, the second the number of bytes, both in decimal.
pub fn print_mem(mem: &Memory, offset_line: &str, count_line: &str) -> (report: MemReport)
    ensures
        report@ == mem_report(
            mem@,
            text::parsed_u16(text::trimmed(offset_line@)),
            count_of(text::parsed_u64(text::trimmed(count_line@))),
        ),
{
    let offset = text::parse_u16(text::trim(offset_line));
    let count = match text::parse_u64(text::trim(count_line)) {
        Some(n) => if n <= usize::MAX as u64 {
            Some(n as usize)
        } else {
            None
        },
        None => None,
    };
    report_memory(mem, offset, count)
}

} // verus!
