//! The processor: registers and flags, the decoder and the executor.
//!
//! The processor's view is a `CpuState` of mathematical integers. What an
//! instruction does is a spec function from the state, the instruction and
//! the memory to the state and memory after it; `execute` and `step` are
//! proved to compute exactly that.

use crate::memory;
use crate::memory::Memory;
use vstd::prelude::*;

verus! {

/// The operations that the decoder knows, one per opcode.
#[allow(non_camel_case_types)]
#[derive(Debug, Clone, Copy, PartialEq, Eq, Structural)]
pub enum InstructionTypes {
    BRK,
    LDA_IMMEDIATE,
    STA_ABSOLUTE,
    ASL_ACCUMULATOR,
    ADC_IMMEDIATE,
    ADC_ABSOLUTE,
    ROL_IMMEDIATE,
    CLEAR_CARRY,
    RTS,
}

/// Why no instruction could be fetched.
#[allow(non_camel_case_types)]
#[derive(Debug, Clone, Copy, PartialEq, Eq, Structural)]
pub enum Error {
    /// A byte of the instruction could not be read.
    FETCH_ERROR(memory::Error),
    /// The byte at the program counter is no known opcode.
    FETCH_ERROR_UNKNOWN_INST(u8),
}

/// Registers and status flags. Each flag is a byte of which the lowest bit
/// counts. The halt flag and the cycle counter are the processor's own: the
/// one is only ever set, the other only ever grows. Verified callers read a
/// register through its getter.
pub struct CPU {
    pub reg_pc: u16,
    pub reg_sp: u8,
    pub reg_accum: u8,
    pub reg_index_x: u8,
    pub reg_index_y: u8,
    pub reg_ps_cf: u8,
    pub reg_ps_zf: u8,
    pub reg_ps_id: u8,
    pub reg_ps_dm: u8,
    pub reg_ps_bc: u8,
    pub reg_ps_of: u8,
    pub reg_ps_nf: u8,
    pub reg_ps_un: u8,
    /// Set once the driver has asked the processor to stop.
    do_halt: bool,
    /// Cycles that the executed instructions have cost in sum.
    total_cycles: u64,
}

/// The processor as a value of plain integers.
pub struct CpuState {
    pub pc: int,
    pub sp: int,
    pub accum: int,
    pub index_x: int,
    pub index_y: int,
    pub cf: int,
    pub zf: int,
    pub id: int,
    pub dm: int,
    pub bc: int,
    pub of: int,
    pub nf: int,
    pub un: int,
    pub halted: bool,
    pub cycles: int,
}

impl View for CPU {
    type V = CpuState;

    closed spec fn view(&self) -> CpuState {
        CpuState {
            pc: self.reg_pc as int,
            sp: self.reg_sp as int,
            accum: self.reg_accum as int,
            index_x: self.reg_index_x as int,
            index_y: self.reg_index_y as int,
            cf: self.reg_ps_cf as int,
            zf: self.reg_ps_zf as int,
            id: self.reg_ps_id as int,
            dm: self.reg_ps_dm as int,
            bc: self.reg_ps_bc as int,
            of: self.reg_ps_of as int,
            nf: self.reg_ps_nf as int,
            un: self.reg_ps_un as int,
            halted: self.do_halt,
            cycles: self.total_cycles as int,
        }
    }
}

/// The state that every processor starts in.
pub open spec fn initial_state() -> CpuState {
    CpuState {
        pc: 0,
        sp: 0xFF,
        accum: 0,
        index_x: 0,
        index_y: 0,
        cf: 0,
        zf: 1,
        id: 1,
        dm: 0,
        bc: 0,
        of: 0,
        nf: 0,
        un: 1,
        halted: false,
        cycles: 0,
    }
}

/// The bit that a flag byte stands for: its lowest.
pub open spec fn flag_bit(flag: int) -> int {
    flag % 2
}

/// The flags packed into one byte: negative in bit 7, then overflow, unused,
/// break, decimal, interrupt-disable, zero, and carry in bit 0.
pub open spec fn status_byte(s: CpuState) -> int {
    128 * flag_bit(s.nf) + 64 * flag_bit(s.of) + 32 * flag_bit(s.un) + 16 * flag_bit(s.bc) + 8
        * flag_bit(s.dm) + 4 * flag_bit(s.id) + 2 * flag_bit(s.zf) + flag_bit(s.cf)
}

/// The state after the flags have followed a result: `res` is the byte that
/// the accumulator got, `wide` the value before it was cut to eight bits. A
/// break flag that is set is cleared, negative is bit 7 of `res`, zero says
/// whether `res` is 0, carry whether `wide` needs more than eight bits.
/// Overflow, decimal and interrupt-disable, like everything else, stay.
pub open spec fn with_result_flags(s: CpuState, res: int, wide: int) -> CpuState {
    CpuState {
        bc: if flag_bit(s.bc) == 1 {
            0
        } else {
            s.bc
        },
        nf: if res >= 0x80 {
            1
        } else {
            0
        },
        zf: if res == 0 {
            1
        } else {
            0
        },
        cf: if wide > 0xFF {
            1
        } else {
            0
        },
        ..s
    }
}

impl CPU {
    pub fn new() -> (cpu: CPU)
        ensures
            cpu@ == initial_state(),
    {
        CPU {
            reg_pc: 0,
            reg_sp: 0xFF,
            reg_accum: 0,
            reg_index_x: 0,
            reg_index_y: 0,
            reg_ps_cf: 0,
            reg_ps_zf: 1,
            reg_ps_id: 1,
            reg_ps_dm: 0,
            reg_ps_bc: 0,
            reg_ps_of: 0,
            reg_ps_nf: 0,
            reg_ps_un: 1,
            do_halt: false,
            total_cycles: 0,
        }
    }

    pub fn program_counter(&self) -> (pc: u16)
        ensures
            pc == self@.pc,
    {
        self.reg_pc
    }

    pub fn stack_pointer(&self) -> (sp: u8)
        ensures
            sp == self@.sp,
    {
        self.reg_sp
    }

    pub fn accumulator(&self) -> (accum: u8)
        ensures
            accum == self@.accum,
    {
        self.reg_accum
    }

    pub fn index_x(&self) -> (x: u8)
        ensures
            x == self@.index_x,
    {
        self.reg_index_x
    }

    pub fn index_y(&self) -> (y: u8)
        ensures
            y == self@.index_y,
    {
        self.reg_index_y
    }

    pub fn carry_flag(&self) -> (flag: u8)
        ensures
            flag == self@.cf,
    {
        self.reg_ps_cf
    }

    pub fn zero_flag(&self) -> (flag: u8)
        ensures
            flag == self@.zf,
    {
        self.reg_ps_zf
    }

    pub fn interrupt_disable(&self) -> (flag: u8)
        ensures
            flag == self@.id,
    {
        self.reg_ps_id
    }

    pub fn decimal_mode(&self) -> (flag: u8)
        ensures
            flag == self@.dm,
    {
        self.reg_ps_dm
    }

    pub fn break_command(&self) -> (flag: u8)
        ensures
            flag == self@.bc,
    {
        self.reg_ps_bc
    }

    pub fn overflow_flag(&self) -> (flag: u8)
        ensures
            flag == self@.of,
    {
        self.reg_ps_of
    }

    pub fn negative_flag(&self) -> (flag: u8)
        ensures
            flag == self@.nf,
    {
        self.reg_ps_nf
    }

    pub fn unused_flag(&self) -> (flag: u8)
        ensures
            flag == self@.un,
    {
        self.reg_ps_un
    }

    /// The cycles that the executed instructions have cost in sum.
    pub fn total_cycles(&self) -> (cycles: u64)
        ensures
            cycles == self@.cycles,
    {
        self.total_cycles
    }

    pub fn check_halt(&self) -> (halt: bool)
        ensures
            halt == self@.halted,
    {
        self.do_halt
    }

    /// Halts the processor for good; nothing else changes.
    pub fn set_halt(&mut self)
        ensures
            final(self)@ == (CpuState { halted: true, ..old(self)@ }),
    {
        self.do_halt = true;
    }

    /// The status flags in one byte.
    pub fn get_status_reg_byte(&self) -> (byte: u8)
        ensures
            byte == status_byte(self@),
    {
        let nf: u8 = self.reg_ps_nf;
        let of: u8 = self.reg_ps_of;
        let un: u8 = self.reg_ps_un;
        let bc: u8 = self.reg_ps_bc;
        let dm: u8 = self.reg_ps_dm;
        let id: u8 = self.reg_ps_id;
        let zf: u8 = self.reg_ps_zf;
        let cf: u8 = self.reg_ps_cf;
        assert((((nf & 0x1) << 7) | ((of & 0x1) << 6) | ((un & 0x1) << 5) | ((bc & 0x1) << 4) | ((dm
            & 0x1) << 3) | ((id & 0x1) << 2) | ((zf & 0x1) << 1) | (cf & 0x1)) == 128 * (nf % 2)
            + 64 * (of % 2) + 32 * (un % 2) + 16 * (bc % 2) + 8 * (dm % 2) + 4 * (id % 2) + 2 * (zf
            % 2) + (cf % 2)) by (bit_vector);
        ((nf & 0x1) << 7) | ((of & 0x1) << 6) | ((un & 0x1) << 5) | ((bc & 0x1) << 4) | ((dm & 0x1)
            << 3) | ((id & 0x1) << 2) | ((zf & 0x1) << 1) | (cf & 0x1)
    }

    /// Lets the flags follow a result: see `with_result_flags`.
    pub fn update_status_regs(&mut self, res: u8, res_wider_carry_check: u16)
        ensures
            final(self)@ == with_result_flags(old(self)@, res as int, res_wider_carry_check as int),
    {
        let bc: u8 = self.reg_ps_bc;
        assert((bc & 0x1) == bc % 2) by (bit_vector);
        if (bc & 0x1) == 1 {
            self.reg_ps_bc = 0;
        }
        assert((res & 0x80) == 0x80 <==> res >= 0x80) by (bit_vector);
        if (res & 0x80) == 0x80 {
            self.reg_ps_nf = 1;
        } else {
            self.reg_ps_nf = 0;
        }
        if res == 0 {
            self.reg_ps_zf = 1;
        } else {
            self.reg_ps_zf = 0;
        }
        assert(((res_wider_carry_check & 0xFF00) >> 8) > 0 <==> res_wider_carry_check > 0xFF)
            by (bit_vector);
        if ((res_wider_carry_check & 0xFF00) >> 8) > 0 {
            self.reg_ps_cf = 1;
        } else {
            self.reg_ps_cf = 0;
        }
    }
}

/// A decoded instruction: the operation, its operand bytes as they stand in
/// memory behind the opcode, and what it costs.
#[derive(Debug)]
pub struct Instruction {
    pub inst: InstructionTypes,
    pub data: Vec<u8>,
    pub num_cycles: u16,
}

/// A decoded instruction with its operand bytes as a sequence.
pub struct InstructionView {
    pub inst: InstructionTypes,
    pub data: Seq<u8>,
    pub num_cycles: u16,
}

impl View for Instruction {
    type V = InstructionView;

    open spec fn view(&self) -> InstructionView {
        InstructionView { inst: self.inst, data: self.data@, num_cycles: self.num_cycles }
    }
}

/// The operation that an opcode byte selects, if it selects one.
pub open spec fn decoded(opcode: u8) -> Option<InstructionTypes> {
    if opcode == 0x00 {
        Some(InstructionTypes::BRK)
    } else if opcode == 0xA9 {
        Some(InstructionTypes::LDA_IMMEDIATE)
    } else if opcode == 0x8D {
        Some(InstructionTypes::STA_ABSOLUTE)
    } else if opcode == 0x0A {
        Some(InstructionTypes::ASL_ACCUMULATOR)
    } else if opcode == 0x69 {
        Some(InstructionTypes::ADC_IMMEDIATE)
    } else if opcode == 0x2A {
        Some(InstructionTypes::ROL_IMMEDIATE)
    } else if opcode == 0x18 {
        Some(InstructionTypes::CLEAR_CARRY)
    } else if opcode == 0x6D {
        Some(InstructionTypes::ADC_ABSOLUTE)
    } else if opcode == 0x60 {
        Some(InstructionTypes::RTS)
    } else {
        None
    }
}

impl InstructionTypes {
    /// How many operand bytes follow the opcode: one for an immediate value,
    /// two for an absolute address, none otherwise.
    pub open spec fn operand_len(self) -> int {
        match self {
            InstructionTypes::LDA_IMMEDIATE | InstructionTypes::ADC_IMMEDIATE => 1,
            InstructionTypes::STA_ABSOLUTE | InstructionTypes::ADC_ABSOLUTE => 2,
            _ => 0,
        }
    }

    /// The cycles that the operation costs.
    pub open spec fn base_cycles(self) -> int {
        match self {
            InstructionTypes::BRK => 7,
            InstructionTypes::STA_ABSOLUTE | InstructionTypes::ADC_ABSOLUTE => 4,
            InstructionTypes::RTS => 6,
            _ => 2,
        }
    }

    /// The number of operand bytes, see `operand_len`.
    pub fn operand_count(self) -> (count: usize)
        ensures
            count == self.operand_len(),
    {
        match self {
            InstructionTypes::LDA_IMMEDIATE | InstructionTypes::ADC_IMMEDIATE => 1,
            InstructionTypes::STA_ABSOLUTE | InstructionTypes::ADC_ABSOLUTE => 2,
            _ => 0,
        }
    }

    /// The cost in cycles, see `base_cycles`.
    pub fn cycles(self) -> (cycles: u16)
        ensures
            cycles == self.base_cycles(),
    {
        match self {
            InstructionTypes::BRK => 7,
            InstructionTypes::STA_ABSOLUTE | InstructionTypes::ADC_ABSOLUTE => 4,
            InstructionTypes::RTS => 6,
            _ => 2,
        }
    }
}

/// Decodes an opcode byte, see `decoded`.
pub fn decode(opcode: u8) -> (inst: Option<InstructionTypes>)
    ensures
        inst == decoded(opcode),
{
    match opcode {
        0x00 => Some(InstructionTypes::BRK),
        0xA9 => Some(InstructionTypes::LDA_IMMEDIATE),
        0x8D => Some(InstructionTypes::STA_ABSOLUTE),
        0x0A => Some(InstructionTypes::ASL_ACCUMULATOR),
        0x69 => Some(InstructionTypes::ADC_IMMEDIATE),
        0x2A => Some(InstructionTypes::ROL_IMMEDIATE),
        0x18 => Some(InstructionTypes::CLEAR_CARRY),
        0x6D => Some(InstructionTypes::ADC_ABSOLUTE),
        0x60 => Some(InstructionTypes::RTS),
        _ => None,
    }
}

/// What fetching at `pc` gives. The opcode and every operand byte are read
/// with the stack page prohibited. A byte that cannot be read gives
/// `FETCH_ERROR`, an opcode that selects nothing `FETCH_ERROR_UNKNOWN_INST`
/// with that byte.
pub open spec fn fetched(pc: int, mem: Seq<u8>) -> Result<InstructionView, Error> {
    match memory::read_result(mem, pc, true) {
        Err(e) => Err(Error::FETCH_ERROR(e)),
        Ok(opcode) => match decoded(opcode) {
            None => Err(Error::FETCH_ERROR_UNKNOWN_INST(opcode)),
            Some(inst) => match memory::read_range_result(mem, pc + 1, inst.operand_len(), true) {
                Err(e) => Err(Error::FETCH_ERROR(e)),
                Ok(data) => Ok(
                    InstructionView { inst: inst, data: data, num_cycles: inst.base_cycles() as u16 },
                ),
            },
        },
    }
}

/// The view of an instruction inside a `Result`.
pub open spec fn fetch_view(r: Result<Instruction, Error>) -> Result<InstructionView, Error> {
    match r {
        Ok(i) => Ok(i@),
        Err(e) => Err(e),
    }
}

impl CPU {
    /// Decodes the instruction at the program counter. Nothing is changed.
    pub fn fetch(&self, mem: &Memory) -> (res: Result<Instruction, Error>)
        ensures
            fetch_view(res) == fetched(self@.pc, mem@),
    {
        proof {
            mem.lemma_len();
        }
        let opcode: u8 = match mem.read_byte(self.reg_pc, true) {
            Ok(byte) => byte,
            Err(e) => {
                return Err(Error::FETCH_ERROR(e));
            },
        };
        let inst = match decode(opcode) {
            Some(inst) => inst,
            None => {
                return Err(Error::FETCH_ERROR_UNKNOWN_INST(opcode));
            },
        };
        let count: usize = inst.operand_count();
        if count == 0 {
            let data: Vec<u8> = Vec::new();
            assert(data@ =~= mem@.subrange(self.reg_pc + 1, self.reg_pc + 1));
            return Ok(Instruction { inst: inst, data: data, num_cycles: inst.cycles() });
        }
        if self.reg_pc == 0xFFFF {
            assert(!memory::accessible(self.reg_pc + 1, true));
            return Err(Error::FETCH_ERROR(memory::Error::READ_OUT_OF_BOUNDS));
        }
        match mem.read_n_bytes(self.reg_pc + 1, count, true) {
            Ok(data) => Ok(Instruction { inst: inst, data: data, num_cycles: inst.cycles() }),
            Err(e) => Err(Error::FETCH_ERROR(e)),
        }
    }
}

/// The processor and the memory after an instruction, with what the
/// instruction reports: `Err` names the memory failure at which it stopped.
pub struct Machine {
    pub cpu: CpuState,
    pub mem: Seq<u8>,
    pub result: Result<(), memory::Error>,
}

/// The address that two operand bytes spell, low byte first.
pub open spec fn operand_address(data: Seq<u8>) -> int {
    data[0] as int + 256 * (data[1] as int)
}

/// The three bytes that a break pushes, in the order of pushing: the high and
/// the low byte of the return address `pc + 2`, then the status byte with the
/// break bit set.
pub open spec fn break_frame(s: CpuState) -> Seq<u8> {
    seq![
        ((s.pc + 2) / 256) as u8,
        ((s.pc + 2) % 256) as u8,
        status_byte(CpuState { bc: 1, ..s }) as u8,
    ]
}

/// The state after `value` has been loaded into the accumulator. The value
/// itself is the carry check, so the carry flag ends up clear.
pub open spec fn after_load(s: CpuState, value: int) -> CpuState {
    with_result_flags(CpuState { accum: value, ..s }, value, value)
}

/// The state after `operand` and the carry bit have been added to the
/// accumulator: the sum modulo 256, with the carry flag set if the sum did
/// not fit.
pub open spec fn after_add(s: CpuState, operand: int) -> CpuState {
    let sum = s.accum + operand + flag_bit(s.cf);
    with_result_flags(CpuState { accum: sum % 256, ..s }, sum % 256, sum)
}

/// The state after the accumulator has been shifted left by one bit: bit 7
/// goes to the carry flag, bit 0 becomes 0.
pub open spec fn after_shift(s: CpuState) -> CpuState {
    let wide = 2 * s.accum;
    with_result_flags(CpuState { accum: wide % 256, ..s }, wide % 256, wide)
}

/// The state after the accumulator has been rotated left by one bit through
/// the carry: bit 7 goes to the carry flag, the old carry bit becomes bit 0.
pub open spec fn after_rotate(s: CpuState) -> CpuState {
    let wide = 2 * s.accum + flag_bit(s.cf);
    with_result_flags(CpuState { accum: wide % 256, ..s }, wide % 256, wide)
}

/// What executing one instruction does. The cycle counter always grows by the
/// instruction's cost. An instruction that completes moves the program
/// counter past itself, except that a return sets it to the address taken
/// from the stack. An instruction that a memory failure stops leaves the
/// program counter, and all that would have come after the failure, alone.
/// No instruction touches the overflow, decimal or interrupt-disable flag or
/// an index register.
///
/// A break pushes its frame at the stack pointer, moves the stack pointer
/// down by three and sets the break flag. The stack pointer is an 8-bit
/// register: from 2, where the frame just fits, it goes round to `0xFF`.
/// Where the frame does not fit, the flags stay as they were. A return takes
/// its address from the two bytes above the stack pointer, low byte first,
/// and moves the stack pointer up by two; with the stack pointer on `0xFF`
/// there is nothing above it.
pub open spec fn executed(s: CpuState, i: InstructionView, mem: Seq<u8>) -> Machine {
    let t = CpuState { cycles: s.cycles + i.num_cycles, ..s };
    match i.inst {
        InstructionTypes::BRK => match memory::push_result(s.sp, 3) {
            Ok(_) => Machine {
                cpu: CpuState { pc: s.pc + 1, sp: (s.sp - 3) % 256, bc: 1, ..t },
                mem: memory::pushed(mem, s.sp, break_frame(s)),
                result: Ok(()),
            },
            Err(e) => Machine { cpu: t, mem: mem, result: Err(e) },
        },
        InstructionTypes::LDA_IMMEDIATE => Machine {
            cpu: CpuState { pc: s.pc + 2, ..after_load(t, i.data[0] as int) },
            mem: mem,
            result: Ok(()),
        },
        InstructionTypes::STA_ABSOLUTE => {
            let addr = operand_address(i.data);
            match memory::write_result(addr, s.accum as u8, true) {
                Ok(_) => Machine {
                    cpu: CpuState { pc: s.pc + 3, ..with_result_flags(t, s.accum, s.accum) },
                    mem: memory::written(mem, addr, s.accum as u8, true),
                    result: Ok(()),
                },
                Err(e) => Machine { cpu: t, mem: mem, result: Err(e) },
            }
        },
        InstructionTypes::ASL_ACCUMULATOR => Machine {
            cpu: CpuState { pc: s.pc + 1, ..after_shift(t) },
            mem: mem,
            result: Ok(()),
        },
        InstructionTypes::ADC_IMMEDIATE => Machine {
            cpu: CpuState { pc: s.pc + 2, ..after_add(t, i.data[0] as int) },
            mem: mem,
            result: Ok(()),
        },
        InstructionTypes::ADC_ABSOLUTE => match memory::read_result(
            mem,
            operand_address(i.data),
            true,
        ) {
            Ok(operand) => Machine {
                cpu: CpuState { pc: s.pc + 3, ..after_add(t, operand as int) },
                mem: mem,
                result: Ok(()),
            },
            Err(e) => Machine { cpu: t, mem: mem, result: Err(e) },
        },
        InstructionTypes::ROL_IMMEDIATE => Machine {
            cpu: CpuState { pc: s.pc + 1, ..after_rotate(t) },
            mem: mem,
            result: Ok(()),
        },
        InstructionTypes::CLEAR_CARRY => Machine {
            cpu: CpuState { pc: s.pc + 1, cf: 0, ..t },
            mem: mem,
            result: Ok(()),
        },
        InstructionTypes::RTS => if s.sp == 0xFF {
            Machine { cpu: t, mem: mem, result: Err(memory::Error::POP_OFF_STACK_EMPTY) }
        } else {
            match memory::pop_result(mem, s.sp + 1, 2) {
                Ok(bytes) => Machine {
                    cpu: CpuState { pc: operand_address(bytes), sp: s.sp + 2, ..t },
                    mem: mem,
                    result: Ok(()),
                },
                Err(e) => Machine { cpu: t, mem: mem, result: Err(e) },
            }
        },
    }
}

/// The instruction can be executed within the registers' widths: it has the
/// operand bytes of its operation, the cycle counter has room for its cost,
/// and neither the program counter it leaves nor the return address that a
/// break computes passes the last address.
pub open spec fn executable(s: CpuState, i: InstructionView, mem: Seq<u8>) -> bool {
    &&& i.data.len() == i.inst.operand_len()
    &&& s.cycles + i.num_cycles <= u64::MAX
    &&& i.inst == InstructionTypes::BRK ==> s.pc + 2 <= u16::MAX
    &&& executed(s, i, mem).cpu.pc <= u16::MAX
}

impl CPU {
    /// Executes one decoded instruction, see `executed`.
    pub fn execute(&mut self, inst: &Instruction, mem: &mut Memory) -> (res: Result<
        (),
        memory::Error,
    >)
        requires
            executable(old(self)@, inst@, old(mem)@),
        ensures
            final(self)@ == executed(old(self)@, inst@, old(mem)@).cpu,
            final(mem)@ == executed(old(self)@, inst@, old(mem)@).mem,
            res == executed(old(self)@, inst@, old(mem)@).result,
    {
        proof {
            mem.lemma_len();
        }
        self.total_cycles = self.total_cycles + inst.num_cycles as u64;
        match inst.inst {
            InstructionTypes::BRK => {
                let pc_plus_two: u16 = self.reg_pc + 2;
                assert(pc_plus_two >> 8 == pc_plus_two / 256 && pc_plus_two & 0x00FF
                    == pc_plus_two % 256) by (bit_vector);
                let high: u8 = (pc_plus_two >> 8) as u8;
                let low: u8 = (pc_plus_two & 0x00FF) as u8;
                let break_flag: u8 = self.reg_ps_bc;
                self.reg_ps_bc = 1;
                let status: u8 = self.get_status_reg_byte();
                self.reg_ps_bc = break_flag;
                let bytes_to_push_on_stack: Vec<u8> = vec![high, low, status];
                match mem.push_onto_stack(self.reg_sp, &bytes_to_push_on_stack) {
                    Ok(_) => {
                        self.reg_sp = if self.reg_sp >= 3 {
                            self.reg_sp - 3
                        } else {
                            self.reg_sp + 253
                        };
                        self.reg_ps_bc = 1;
                        self.reg_pc = self.reg_pc + 1;
                        Ok(())
                    },
                    Err(e) => Err(e),
                }
            },
            InstructionTypes::LDA_IMMEDIATE => {
                let value: u8 = inst.data[0];
                self.reg_accum = value;
                self.update_status_regs(value, value as u16);
                self.reg_pc = self.reg_pc + 2;
                Ok(())
            },
            InstructionTypes::STA_ABSOLUTE => {
                let addr: u16 = Self::absolute_address(inst.data[0], inst.data[1]);
                match mem.write_byte(addr, self.reg_accum, true) {
                    Ok(_) => {
                        self.update_status_regs(self.reg_accum, self.reg_accum as u16);
                        self.reg_pc = self.reg_pc + 3;
                        Ok(())
                    },
                    Err(e) => Err(e),
                }
            },
            InstructionTypes::ASL_ACCUMULATOR => {
                let accum: u8 = self.reg_accum;
                let wide: u16 = (accum as u16) << 1;
                assert(((accum as u16) << 1) == 2 * accum && (((accum as u16) << 1) & 0x00FF) == (2
                    * accum) % 256) by (bit_vector);
                self.reg_accum = (wide & 0x00FF) as u8;
                self.update_status_regs(self.reg_accum, wide);
                self.reg_pc = self.reg_pc + 1;
                Ok(())
            },
            InstructionTypes::ADC_IMMEDIATE => {
                self.add_with_carry(inst.data[0]);
                self.reg_pc = self.reg_pc + 2;
                Ok(())
            },
            InstructionTypes::ADC_ABSOLUTE => {
                let addr: u16 = Self::absolute_address(inst.data[0], inst.data[1]);
                match mem.read_byte(addr, true) {
                    Ok(operand) => {
                        self.add_with_carry(operand);
                        self.reg_pc = self.reg_pc + 3;
                        Ok(())
                    },
                    Err(e) => Err(e),
                }
            },
            InstructionTypes::ROL_IMMEDIATE => {
                let accum: u8 = self.reg_accum;
                let carry: u8 = self.reg_ps_cf;
                let wide: u16 = ((accum as u16) << 1) | ((carry & 0x1) as u16);
                assert((((accum as u16) << 1) | ((carry & 0x1) as u16)) == 2 * accum + carry % 2
                    && ((((accum as u16) << 1) | ((carry & 0x1) as u16)) & 0x00FF) == (2 * accum
                    + carry % 2) % 256) by (bit_vector);
                self.reg_accum = (wide & 0x00FF) as u8;
                self.update_status_regs(self.reg_accum, wide);
                self.reg_pc = self.reg_pc + 1;
                Ok(())
            },
            InstructionTypes::CLEAR_CARRY => {
                self.reg_ps_cf = 0;
                self.reg_pc = self.reg_pc + 1;
                Ok(())
            },
            InstructionTypes::RTS => {
                if self.reg_sp == 0xFF {
                    return Err(memory::Error::POP_OFF_STACK_EMPTY);
                }
                match mem.pop_off_stack(self.reg_sp + 1, 2) {
                    Ok(bytes) => {
                        self.reg_pc = Self::absolute_address(bytes[0], bytes[1]);
                        self.reg_sp = self.reg_sp + 2;
                        Ok(())
                    },
                    Err(e) => Err(e),
                }
            },
        }
    }

    /// Adds `operand` and the carry bit to the accumulator, see `after_add`.
    fn add_with_carry(&mut self, operand: u8)
        ensures
            final(self)@ == after_add(old(self)@, operand as int),
    {
        let accum: u8 = self.reg_accum;
        let carry: u8 = self.reg_ps_cf;
        assert((carry & 0x1) == carry % 2 && (carry & 0x1) <= 1) by (bit_vector);
        let wide: u16 = accum as u16 + operand as u16 + (carry & 0x1) as u16;
        assert((wide & 0x00FF) == wide % 256) by (bit_vector);
        self.reg_accum = (wide & 0x00FF) as u8;
        self.update_status_regs(self.reg_accum, wide);
    }

    /// The address that two bytes spell, low byte first.
    fn absolute_address(low: u8, high: u8) -> (addr: u16)
        ensures
            addr == low + 256 * high,
    {
        assert(((low as u16) | ((high as u16) << 8)) == low + 256 * high) by (bit_vector);
        (low as u16) | ((high as u16) << 8)
    }
}

/// What a step reports when an instruction was fetched: the instruction, and
/// what executing it reported.
#[derive(Debug)]
pub struct Executed {
    pub inst: Instruction,
    pub result: Result<(), memory::Error>,
}

/// An `Executed` with the instruction as its view.
pub struct ExecutedView {
    pub inst: InstructionView,
    pub result: Result<(), memory::Error>,
}

impl View for Executed {
    type V = ExecutedView;

    open spec fn view(&self) -> ExecutedView {
        ExecutedView { inst: self.inst@, result: self.result }
    }
}

/// The view of an `Executed` inside a `Result`.
pub open spec fn step_view(r: Result<Executed, Error>) -> Result<ExecutedView, Error> {
    match r {
        Ok(x) => Ok(x@),
        Err(e) => Err(e),
    }
}

/// The processor and the memory after a step, with what the step reports.
pub struct Stepped {
    pub cpu: CpuState,
    pub mem: Seq<u8>,
    pub report: Result<ExecutedView, Error>,
}

/// What one step does: it fetches at the program counter and executes what
/// it fetched. Where nothing can be fetched, nothing changes, the program
/// counter included, and the step reports the fetch error.
pub open spec fn stepped(s: CpuState, mem: Seq<u8>) -> Stepped {
    match fetched(s.pc, mem) {
        Ok(i) => {
            let m = executed(s, i, mem);
            Stepped { cpu: m.cpu, mem: m.mem, report: Ok(ExecutedView { inst: i, result: m.result }) }
        },
        Err(e) => Stepped { cpu: s, mem: mem, report: Err(e) },
    }
}

/// A step stays within the registers' widths: what it would fetch is
/// executable.
pub open spec fn steppable(s: CpuState, mem: Seq<u8>) -> bool {
    fetched(s.pc, mem) matches Ok(i) ==> executable(s, i, mem)
}

impl CPU {
    /// Whether `execute` may be called with this instruction.
    pub fn can_execute(&self, inst: &Instruction, mem: &Memory) -> (can: bool)
        ensures
            can == executable(self@, inst@, mem@),
    {
        proof {
            mem.lemma_len();
        }
        if inst.data.len() != inst.inst.operand_count() {
            return false;
        }
        if inst.num_cycles as u64 > u64::MAX - self.total_cycles {
            return false;
        }
        match inst.inst {
            InstructionTypes::BRK | InstructionTypes::LDA_IMMEDIATE | InstructionTypes::ADC_IMMEDIATE => {
                self.reg_pc <= u16::MAX - 2
            },
            InstructionTypes::ASL_ACCUMULATOR | InstructionTypes::ROL_IMMEDIATE | InstructionTypes::CLEAR_CARRY => {
                self.reg_pc <= u16::MAX - 1
            },
            InstructionTypes::STA_ABSOLUTE | InstructionTypes::ADC_ABSOLUTE => {
                let addr: u16 = Self::absolute_address(inst.data[0], inst.data[1]);
                (addr >= memory::STACK_START && addr <= memory::STACK_END) || self.reg_pc
                    <= u16::MAX - 3
            },
            InstructionTypes::RTS => true,
        }
    }

    /// Whether `step` may be called.
    pub fn can_step(&self, mem: &Memory) -> (can: bool)
        ensures
            can == steppable(self@, mem@),
    {
        match self.fetch(mem) {
            Ok(inst) => self.can_execute(&inst, mem),
            Err(_) => true,
        }
    }

    /// Fetches the next instruction and executes it, see `stepped`.
    pub fn step(&mut self, mem_ref: &mut Memory) -> (res: Result<Executed, Error>)
        requires
            steppable(old(self)@, old(mem_ref)@),
        ensures
            final(self)@ == stepped(old(self)@, old(mem_ref)@).cpu,
            final(mem_ref)@ == stepped(old(self)@, old(mem_ref)@).mem,
            step_view(res) == stepped(old(self)@, old(mem_ref)@).report,
    {
        match self.fetch(mem_ref) {
            Ok(inst) => {
                let result = self.execute(&inst, mem_ref);
                Ok(Executed { inst: inst, result: result })
            },
            Err(e) => Err(e),
        }
    }
}

/// A byte at the program counter that selects no operation makes the fetch
/// fail with that byte. A step is then always possible and changes nothing:
/// the program counter, the other registers and the memory stay as they are.
pub proof fn lemma_unknown_opcode(s: CpuState, mem: Seq<u8>)
    requires
        mem.len() == memory::MAX_MEMORY_SIZE_BYTES,
        memory::accessible(s.pc, true),
        decoded(mem[s.pc]) is None,
    ensures
        fetched(s.pc, mem) == Err::<InstructionView, Error>(
            Error::FETCH_ERROR_UNKNOWN_INST(mem[s.pc]),
        ),
        steppable(s, mem),
        stepped(s, mem).cpu == s,
        stepped(s, mem).mem == mem,
        stepped(s, mem).report == Err::<ExecutedView, Error>(
            Error::FETCH_ERROR_UNKNOWN_INST(mem[s.pc]),
        ),
{
}

/// Whatever a step fetches and wherever it stops, the cycle counter does not
/// go down, and the halt flag, the index registers and the overflow, decimal,
/// interrupt-disable and unused flags stay as they are.
pub proof fn lemma_step_keeps(s: CpuState, mem: Seq<u8>)
    ensures
        stepped(s, mem).cpu.cycles >= s.cycles,
        stepped(s, mem).cpu.halted == s.halted,
        stepped(s, mem).cpu.index_x == s.index_x,
        stepped(s, mem).cpu.index_y == s.index_y,
        stepped(s, mem).cpu.of == s.of,
        stepped(s, mem).cpu.dm == s.dm,
        stepped(s, mem).cpu.id == s.id,
        stepped(s, mem).cpu.un == s.un,
{
}

/// A return resumes at the address that was pushed last. Let the high and the
/// low byte of an address be pushed at the stack pointer `s.sp + 2`, and the
/// stack pointer be moved down by two, to `s.sp`. Then a return sets the
/// program counter to that address and the stack pointer back to where the
/// push began, at every stack pointer, the top of the page included.
pub proof fn lemma_return_takes_pushed_address(
    s: CpuState,
    mem: Seq<u8>,
    high: u8,
    low: u8,
    cycles: u16,
)
    requires
        mem.len() == memory::MAX_MEMORY_SIZE_BYTES,
        0 <= s.sp <= 0xFD,
    ensures
        ({
            let stack = memory::pushed(mem, s.sp + 2, seq![high, low]);
            let rts = InstructionView {
                inst: InstructionTypes::RTS,
                data: Seq::empty(),
                num_cycles: cycles,
            };
            let after = executed(s, rts, stack);
            &&& memory::push_result(s.sp + 2, 2) == Ok::<(), memory::Error>(())
            &&& after.result == Ok::<(), memory::Error>(())
            &&& after.cpu.pc == low + 256 * high
            &&& after.cpu.sp == s.sp + 2
            &&& after.cpu.cycles == s.cycles + cycles
            &&& after.mem == stack
        }),
{
    let stack = memory::pushed(mem, s.sp + 2, seq![high, low]);
    assert(stack.subrange(memory::STACK_START + s.sp + 1, memory::STACK_START + s.sp + 3) =~= seq![
        low,
        high,
    ]);
}

} // verus!
