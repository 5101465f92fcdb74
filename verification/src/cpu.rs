//! The execution engine: program counter, stack pointer, register file and
//! bus, and what one instruction does to them.

pub mod alu;
pub mod flags_register;
pub mod instruction;
pub mod registers;

use vstd::prelude::*;
use crate::cpu::alu::{
    bit_is_set,
    bit_test_flags,
    difference,
    difference_flags,
    lemma_low_nibble,
    logic_flags,
    sum,
    sum_flags,
};
use crate::cpu::flags_register::FlagsRegister;
use crate::cpu::instruction::{
    ArithmeticTarget,
    BitPosition,
    Indirect,
    Instruction,
    LoadByteSource,
    LoadByteTarget,
    LoadType,
    LoadWordTarget,
};
use crate::cpu::registers::{lemma_pair_bits, pair, Registers};
use crate::error::CoreError;
use crate::memory_bus::{accepts_write, images_fit, overlay_view, MemoryBus, MemoryMap};

verus! {

/// The byte that announces an opcode of the second table.
pub const PREFIX_BYTE: u8 = 0xCB;

/// The processor. It owns its bus.
pub struct CPU {
    pub registers: Registers,
    pub pc: u16,
    pub sp: u16,
    pub bus: MemoryBus,
}

/// The processor as mathematics: the registers, the two 16-bit counters and
/// the map of the bus.
pub struct CpuState {
    pub registers: Registers,
    pub pc: u16,
    pub sp: u16,
    pub memory: MemoryMap,
}

impl View for CPU {
    type V = CpuState;

    open spec fn view(&self) -> CpuState {
        CpuState { registers: self.registers, pc: self.pc, sp: self.sp, memory: self.bus@ }
    }
}

/// The address `count` bytes after `address`, wrapping at the end of the
/// address space.
pub open spec fn advance(address: u16, count: int) -> u16 {
    ((address + count) % 0x1_0000) as u16
}

/// The number of bytes that a load takes up: the opcode, and the byte or
/// the word after it where the load reads one. The store to the high page
/// counts two.
pub open spec fn load_length(load: LoadType) -> int {
    match load {
        LoadType::Byte(_, source) => if source == LoadByteSource::D8 {
            2
        } else {
            1
        },
        LoadType::Word(_) => 3,
        LoadType::IndirectFromA(indirect) => if indirect == Indirect::WordIndirect {
            3
        } else if indirect == Indirect::LastByteIndirect {
            2
        } else {
            1
        },
    }
}

/// The number of bytes that an instruction takes up, prefix and immediate
/// operands included.
pub open spec fn length_of(instruction: Instruction) -> int {
    match instruction {
        Instruction::LD(load) => load_length(load),
        Instruction::BIT(_) => 2,
        _ => 1,
    }
}

/// The clock cycles that an arithmetic or logic instruction takes: eight
/// where the operand is the byte that HL points to, four where it is a
/// register.
pub open spec fn arithmetic_cycles(target: ArithmeticTarget) -> u8 {
    if target == ArithmeticTarget::HLI {
        8
    } else {
        4
    }
}

/// The clock cycles that a load takes.
pub open spec fn load_cycles(load: LoadType) -> u8 {
    match load {
        LoadType::Byte(target, source) => if source == LoadByteSource::D8 || source
            == LoadByteSource::HLI || target == LoadByteTarget::HLI {
            8
        } else {
            4
        },
        LoadType::Word(_) => 12,
        LoadType::IndirectFromA(indirect) => if indirect == Indirect::WordIndirect {
            16
        } else {
            8
        },
    }
}

/// The clock cycles that an instruction takes.
pub open spec fn cycles_of(instruction: Instruction) -> u8 {
    match instruction {
        Instruction::ADD(target) => arithmetic_cycles(target),
        Instruction::ADC(target) => arithmetic_cycles(target),
        Instruction::SUB(target) => arithmetic_cycles(target),
        Instruction::SBC(target) => arithmetic_cycles(target),
        Instruction::AND(target) => arithmetic_cycles(target),
        Instruction::OR(target) => arithmetic_cycles(target),
        Instruction::XOR(target) => arithmetic_cycles(target),
        Instruction::CP(target) => arithmetic_cycles(target),
        Instruction::LD(load) => load_cycles(load),
        Instruction::BIT(_) => 8,
    }
}

impl CpuState {
    /// The processor at reset on the given memory: registers, flags, program
    /// counter and stack pointer all zero.
    pub open spec fn reset(memory: MemoryMap) -> CpuState {
        CpuState { registers: Registers::zeroed(), pc: 0, sp: 0, memory }
    }

    /// The byte right after the opcode.
    pub open spec fn next_byte(self) -> u8 {
        self.memory.read(advance(self.pc, 1))
    }

    /// The word right after the opcode, low byte first.
    pub open spec fn next_word(self) -> u16 {
        pair(self.memory.read(advance(self.pc, 2)), self.memory.read(advance(self.pc, 1)))
    }

    /// The operand of an arithmetic or logic instruction.
    pub open spec fn operand(self, target: ArithmeticTarget) -> u8 {
        match target {
            ArithmeticTarget::A => self.registers.a,
            ArithmeticTarget::B => self.registers.b,
            ArithmeticTarget::C => self.registers.c,
            ArithmeticTarget::D => self.registers.d,
            ArithmeticTarget::E => self.registers.e,
            ArithmeticTarget::H => self.registers.h,
            ArithmeticTarget::L => self.registers.l,
            ArithmeticTarget::HLI => self.memory.read(self.registers.hl()),
        }
    }

    /// The byte that a byte load reads.
    pub open spec fn source_value(self, source: LoadByteSource) -> u8 {
        match source {
            LoadByteSource::A => self.registers.a,
            LoadByteSource::B => self.registers.b,
            LoadByteSource::C => self.registers.c,
            LoadByteSource::D => self.registers.d,
            LoadByteSource::E => self.registers.e,
            LoadByteSource::H => self.registers.h,
            LoadByteSource::L => self.registers.l,
            LoadByteSource::D8 => self.next_byte(),
            LoadByteSource::HLI => self.memory.read(self.registers.hl()),
        }
    }

    /// The address that a store of the accumulator writes to.
    pub open spec fn indirect_address(self, indirect: Indirect) -> u16 {
        match indirect {
            Indirect::BCIndirect => self.registers.bc(),
            Indirect::DEIndirect => self.registers.de(),
            Indirect::HLIndirectMinus => self.registers.hl(),
            Indirect::HLIndirectPlus => self.registers.hl(),
            Indirect::WordIndirect => self.next_word(),
            Indirect::LastByteIndirect => pair(0xFF, self.registers.c),
        }
    }

    /// The address in memory that a load writes to, if it writes to memory
    /// at all.
    pub open spec fn load_store_address(self, load: LoadType) -> Option<u16> {
        match load {
            LoadType::Byte(target, _) => if target == LoadByteTarget::HLI {
                Some(self.registers.hl())
            } else {
                None
            },
            LoadType::Word(_) => None,
            LoadType::IndirectFromA(indirect) => Some(self.indirect_address(indirect)),
        }
    }

    /// The address in memory that an instruction writes to, if it writes to
    /// memory at all. Only loads do.
    pub open spec fn store_address(self, instruction: Instruction) -> Option<u16> {
        match instruction {
            Instruction::LD(load) => self.load_store_address(load),
            _ => None,
        }
    }

    /// The condition that keeps an instruction from executing, if there is
    /// one: it writes to an address that the bus does not take.
    pub open spec fn fault(self, instruction: Instruction) -> Option<CoreError> {
        match self.store_address(instruction) {
            Some(address) => if accepts_write(address) {
                None
            } else {
                Some(CoreError::UnmappedWrite { address })
            },
            None => None,
        }
    }

    /// The state with the accumulator and the flags replaced.
    pub open spec fn with_result(self, a: u8, f: FlagsRegister) -> CpuState {
        CpuState { registers: Registers { a, f, ..self.registers }, ..self }
    }

    /// The state after a byte is stored to the target of a byte load.
    pub open spec fn with_byte(self, target: LoadByteTarget, value: u8) -> CpuState {
        match target {
            LoadByteTarget::A => CpuState {
                registers: Registers { a: value, ..self.registers },
                ..self
            },
            LoadByteTarget::B => CpuState {
                registers: Registers { b: value, ..self.registers },
                ..self
            },
            LoadByteTarget::C => CpuState {
                registers: Registers { c: value, ..self.registers },
                ..self
            },
            LoadByteTarget::D => CpuState {
                registers: Registers { d: value, ..self.registers },
                ..self
            },
            LoadByteTarget::E => CpuState {
                registers: Registers { e: value, ..self.registers },
                ..self
            },
            LoadByteTarget::H => CpuState {
                registers: Registers { h: value, ..self.registers },
                ..self
            },
            LoadByteTarget::L => CpuState {
                registers: Registers { l: value, ..self.registers },
                ..self
            },
            LoadByteTarget::HLI => CpuState {
                memory: self.memory.write(self.registers.hl(), value),
                ..self
            },
        }
    }

    /// The state after a word is stored to the target of a word load.
    pub open spec fn with_word(self, target: LoadWordTarget, value: u16) -> CpuState {
        match target {
            LoadWordTarget::BC => CpuState { registers: self.registers.with_bc(value), ..self },
            LoadWordTarget::DE => CpuState { registers: self.registers.with_de(value), ..self },
            LoadWordTarget::HL => CpuState { registers: self.registers.with_hl(value), ..self },
            LoadWordTarget::SP => CpuState { sp: value, ..self },
        }
    }

    /// The state after the accumulator is stored through `indirect`: the
    /// byte is written, and HL then steps down or up where the form says so.
    pub open spec fn with_accumulator_stored(self, indirect: Indirect) -> CpuState {
        let written = CpuState {
            memory: self.memory.write(self.indirect_address(indirect), self.registers.a),
            ..self
        };
        match indirect {
            Indirect::HLIndirectMinus => CpuState {
                registers: self.registers.with_hl(advance(self.registers.hl(), -1)),
                ..written
            },
            Indirect::HLIndirectPlus => CpuState {
                registers: self.registers.with_hl(advance(self.registers.hl(), 1)),
                ..written
            },
            _ => written,
        }
    }

    /// The state after a load that does not fault.
    pub open spec fn loaded(self, load: LoadType) -> CpuState {
        match load {
            LoadType::Byte(target, source) => self.with_byte(target, self.source_value(source)),
            LoadType::Word(target) => self.with_word(target, self.next_word()),
            LoadType::IndirectFromA(indirect) => self.with_accumulator_stored(indirect),
        }
    }

    /// The state after an instruction that does not fault has executed. The
    /// program counter is not part of this: it stays, and
    /// [`CpuState::next_pc`] says where it goes.
    ///
    /// A bit test reads register H, the operand of the one bit test that
    /// the decoder assigns.
    pub open spec fn executed(self, instruction: Instruction) -> CpuState {
        let a = self.registers.a;
        let carry = self.registers.f.carry;
        match instruction {
            Instruction::ADD(target) => self.with_result(
                sum(a, self.operand(target), false),
                sum_flags(a, self.operand(target), false),
            ),
            Instruction::ADC(target) => self.with_result(
                sum(a, self.operand(target), carry),
                sum_flags(a, self.operand(target), carry),
            ),
            Instruction::SUB(target) => self.with_result(
                difference(a, self.operand(target), false),
                difference_flags(a, self.operand(target), false),
            ),
            Instruction::SBC(target) => self.with_result(
                difference(a, self.operand(target), carry),
                difference_flags(a, self.operand(target), carry),
            ),
            Instruction::AND(target) => self.with_result(
                a & self.operand(target),
                logic_flags(a & self.operand(target), true),
            ),
            Instruction::OR(target) => self.with_result(
                a | self.operand(target),
                logic_flags(a | self.operand(target), false),
            ),
            Instruction::XOR(target) => self.with_result(
                a ^ self.operand(target),
                logic_flags(a ^ self.operand(target), false),
            ),
            Instruction::CP(target) => self.with_result(
                a,
                difference_flags(a, self.operand(target), false),
            ),
            Instruction::LD(load) => self.loaded(load),
            Instruction::BIT(position) => self.with_result(
                a,
                bit_test_flags(self.registers.h, position, self.registers.f),
            ),
        }
    }

    /// Where the program counter goes after an instruction.
    pub open spec fn next_pc(self, instruction: Instruction) -> u16 {
        advance(self.pc, length_of(instruction))
    }

    /// The opcode at the program counter: the byte there, or, where that is
    /// the prefix byte, the byte after it; and whether the prefix was there.
    pub open spec fn opcode(self) -> (u8, bool) {
        if self.memory.read(self.pc) == PREFIX_BYTE {
            (self.memory.read(advance(self.pc, 1)), true)
        } else {
            (self.memory.read(self.pc), false)
        }
    }

    /// The instruction at the program counter, if the opcode there has one.
    pub open spec fn fetched(self) -> Option<Instruction> {
        Instruction::decoded(self.opcode().0, self.opcode().1)
    }

    /// The condition on which a step stops without doing anything, if there
    /// is one: no instruction is assigned to the opcode at the program
    /// counter, or the instruction there faults.
    pub open spec fn halt(self) -> Option<CoreError> {
        match self.fetched() {
            Some(instruction) => self.fault(instruction),
            None => Some(
                CoreError::IllegalOpcode { byte: self.opcode().0, prefixed: self.opcode().1 },
            ),
        }
    }

    /// The state after the instruction has executed and the program counter
    /// has moved on.
    pub open spec fn stepped(self, instruction: Instruction) -> CpuState {
        CpuState { pc: self.next_pc(instruction), ..self.executed(instruction) }
    }
}

/// Where no instruction is assigned to the opcode at the program counter, a
/// step stops on `IllegalOpcode`, which carries that opcode: the byte at the
/// program counter itself where that is not the prefix byte, else the byte
/// after it.
pub proof fn lemma_illegal_opcode(state: CpuState)
    requires
        state.fetched() is None,
    ensures
        state.halt() == Some(
            CoreError::IllegalOpcode { byte: state.opcode().0, prefixed: state.opcode().1 },
        ),
        state.memory.read(state.pc) != PREFIX_BYTE ==> state.opcode() == (
            state.memory.read(state.pc),
            false,
        ),
        state.memory.read(state.pc) == PREFIX_BYTE ==> state.opcode() == (
            state.memory.read(advance(state.pc, 1)),
            true,
        ),
{
}

/// An instruction takes one to three bytes, and a whole number of machine
/// cycles of four clock cycles each, at most four of them.
pub proof fn lemma_length_and_cycles(instruction: Instruction)
    ensures
        1 <= length_of(instruction) <= 3,
        4 <= cycles_of(instruction) <= 16,
        cycles_of(instruction) % 4 == 0,
{
}

/// Nothing but a store to the interrupt-enable register keeps an
/// instruction from executing; arithmetic, logic, word loads, loads into a
/// register and bit tests always execute.
pub proof fn lemma_fault_is_unmapped_store(state: CpuState, instruction: Instruction)
    ensures
        state.fault(instruction) is Some <==> state.store_address(instruction)
            == Some(0xFFFFu16),
        state.fault(instruction) matches Some(error)
            ==> error == (CoreError::UnmappedWrite { address: 0xFFFF }),
        state.store_address(instruction) is Some
            <==> (instruction matches Instruction::LD(load)
            && (load is IndirectFromA || load matches LoadType::Byte(LoadByteTarget::HLI, _))),
{
}

/// Executing an instruction leaves the program counter where it is and the
/// regions of memory at their lengths; the step then moves the program
/// counter past the instruction and touches nothing else.
pub proof fn lemma_executed_frame(state: CpuState, instruction: Instruction)
    requires
        state.memory.wf(),
    ensures
        state.executed(instruction).pc == state.pc,
        state.executed(instruction).memory.wf(),
        state.stepped(instruction).pc == advance(state.pc, length_of(instruction)),
        state.stepped(instruction).registers == state.executed(instruction).registers,
        state.stepped(instruction).sp == state.executed(instruction).sp,
        state.stepped(instruction).memory == state.executed(instruction).memory,
{
}

/// Arithmetic, logic and bit tests change the accumulator and the flags and
/// nothing else; a comparison and a bit test keep the accumulator too.
pub proof fn lemma_arithmetic_frame(state: CpuState, instruction: Instruction)
    requires
        !(instruction is LD),
    ensures
        state.executed(instruction) == state.with_result(
            state.executed(instruction).registers.a,
            state.executed(instruction).registers.f,
        ),
        instruction is CP || instruction is BIT ==> state.executed(instruction).registers.a
            == state.registers.a,
        instruction is BIT ==> state.executed(instruction).registers.f.carry
            == state.registers.f.carry,
{
}

/// A load changes no flag.
pub proof fn lemma_load_keeps_flags(state: CpuState, load: LoadType)
    ensures
        state.executed(Instruction::LD(load)).registers.f == state.registers.f,
{
}

/// XOR of the accumulator with itself clears it, sets the zero flag and
/// clears the other three, whatever the accumulator held.
pub proof fn lemma_xor_self(state: CpuState)
    ensures
        state.executed(Instruction::XOR(ArithmeticTarget::A)).registers.a == 0,
        state.executed(Instruction::XOR(ArithmeticTarget::A)).registers.f == (FlagsRegister {
            zero: true,
            subtract: false,
            half_carry: false,
            carry: false,
        }),
{
    let a = state.registers.a;
    assert(a ^ a == 0) by (bit_vector);
}

/// A word load stores the word after the opcode, low byte first, in its
/// target, always executes, moves the program counter by three and takes
/// twelve cycles.
pub proof fn lemma_word_load(state: CpuState, target: LoadWordTarget)
    ensures
        state.fault(Instruction::LD(LoadType::Word(target))) is None,
        state.next_pc(Instruction::LD(LoadType::Word(target))) == advance(state.pc, 3),
        cycles_of(Instruction::LD(LoadType::Word(target))) == 12,
        state.next_word() == state.memory.read(advance(state.pc, 1))
            + 256 * state.memory.read(advance(state.pc, 2)),
        target == LoadWordTarget::SP ==> state.executed(
            Instruction::LD(LoadType::Word(target)),
        ).sp == state.next_word(),
        target == LoadWordTarget::BC ==> state.executed(
            Instruction::LD(LoadType::Word(target)),
        ).registers.bc() == state.next_word(),
        target == LoadWordTarget::DE ==> state.executed(
            Instruction::LD(LoadType::Word(target)),
        ).registers.de() == state.next_word(),
        target == LoadWordTarget::HL ==> state.executed(
            Instruction::LD(LoadType::Word(target)),
        ).registers.hl() == state.next_word(),
{
}

impl CPU {
    /// The processor with its flags replaced and all else as it is.
    pub open spec fn with_flags(self, f: FlagsRegister) -> CPU {
        CPU { registers: Registers { f, ..self.registers }, ..self }
    }

    /// Builds the processor at reset, on a bus made from the two images:
    /// registers, flags, program counter and stack pointer all zero.
    ///
    /// Fails with `InvalidImageSize` exactly when the bus cannot be built.
    pub fn new(boot_rom: Option<Vec<u8>>, game_rom: Vec<u8>) -> (result: Result<CPU, CoreError>)
        ensures
            result is Ok <==> images_fit(overlay_view(boot_rom), game_rom@),
            result matches Ok(cpu) ==> cpu@ == CpuState::reset(
                MemoryMap::initial(overlay_view(boot_rom), game_rom@),
            ) && cpu@.memory.wf(),
            result matches Err(error) ==> error == CoreError::InvalidImageSize,
    {
        match MemoryBus::new(boot_rom, game_rom) {
            Ok(bus) => Ok(CPU { registers: Registers::new(), pc: 0x0, sp: 0x00, bus }),
            Err(error) => Err(error),
        }
    }

    /// Executes one instruction, and returns where the program counter goes
    /// next and the cycles taken. The program counter itself is left alone.
    ///
    /// Fails with `UnmappedWrite` exactly when the instruction writes to an
    /// address that the bus does not take, and then changes nothing.
    pub fn execute(&mut self, instruction: Instruction) -> (result: Result<(u16, u8), CoreError>)
        ensures
            result is Ok <==> old(self)@.fault(instruction) is None,
            result is Ok ==> final(self)@ == old(self)@.executed(instruction),
            result matches Ok(timing) ==> timing == (
                old(self)@.next_pc(instruction),
                cycles_of(instruction),
            ),
            result matches Err(error) ==> old(self)@.fault(instruction) == Some(error)
                && *final(self) == *old(self),
            final(self)@.memory.wf(),
    {
        let result = match instruction {
            Instruction::ADD(register) => {
                let value = self.read_operand(register);
                self.registers.a = self.add_without_carry(value);
                Ok(self.arithmetic_timing(register))
            },
            Instruction::ADC(register) => {
                let value = self.read_operand(register);
                self.registers.a = self.add_with_carry(value);
                Ok(self.arithmetic_timing(register))
            },
            Instruction::SUB(register) => {
                let value = self.read_operand(register);
                self.registers.a = self.sub_without_carry(value);
                Ok(self.arithmetic_timing(register))
            },
            Instruction::SBC(register) => {
                let value = self.read_operand(register);
                self.registers.a = self.sub_with_carry(value);
                Ok(self.arithmetic_timing(register))
            },
            Instruction::AND(register) => {
                let value = self.read_operand(register);
                self.registers.a = self.and(value);
                Ok(self.arithmetic_timing(register))
            },
            Instruction::OR(register) => {
                let value = self.read_operand(register);
                self.registers.a = self.or(value);
                Ok(self.arithmetic_timing(register))
            },
            Instruction::XOR(register) => {
                let value = self.read_operand(register);
                self.registers.a = self.xor(value);
                Ok(self.arithmetic_timing(register))
            },
            Instruction::CP(register) => {
                let value = self.read_operand(register);
                self.compare(value);
                Ok(self.arithmetic_timing(register))
            },
            Instruction::LD(load_type) => self.load(load_type),
            Instruction::BIT(position) => {
                let value = self.registers.h;
                self.bit_test(value, position);
                Ok((self.pc.wrapping_add(2), 8))
            },
        };
        proof {
            self.bus.lemma_wf();
        }
        result
    }

    /// Advances by one instruction and returns the cycles it took.
    ///
    /// Fails with `IllegalOpcode`, carrying the opcode byte and whether the
    /// prefix preceded it, exactly when no instruction is assigned to the
    /// opcode at the program counter; and with `UnmappedWrite` exactly when
    /// the instruction there writes to an address that the bus does not
    /// take. A step that fails changes nothing.
    pub fn step(&mut self) -> (result: Result<u8, CoreError>)
        ensures
            result is Ok <==> old(self)@.halt() is None,
            result matches Ok(cycles) ==> old(self)@.fetched() matches Some(instruction)
                && final(self)@ == old(self)@.stepped(instruction)
                && cycles == cycles_of(instruction),
            result matches Err(error) ==> old(self)@.halt() == Some(error)
                && *final(self) == *old(self),
            final(self)@.memory.wf(),
    {
        let (instruction_byte, prefixed) = self.fetch();
        let result = match Instruction::from_byte(instruction_byte, prefixed) {
            Some(instruction) => {
                match self.execute(instruction) {
                    Ok((next_pc, cycles)) => {
                        self.pc = next_pc;
                        Ok(cycles)
                    },
                    Err(error) => Err(error),
                }
            },
            None => Err(CoreError::IllegalOpcode { byte: instruction_byte, prefixed }),
        };
        proof {
            self.bus.lemma_wf();
        }
        result
    }

    /// Executes a load.
    fn load(&mut self, load_type: LoadType) -> (result: Result<(u16, u8), CoreError>)
        ensures
            result is Ok <==> old(self)@.fault(Instruction::LD(load_type)) is None,
            result is Ok ==> final(self)@ == old(self)@.loaded(load_type),
            result matches Ok(timing) ==> timing == (
                advance(old(self).pc, load_length(load_type)),
                load_cycles(load_type),
            ),
            result matches Err(error) ==> old(self)@.fault(Instruction::LD(load_type))
                == Some(error) && *final(self) == *old(self),
    {
        match load_type {
            LoadType::Byte(target, source) => self.load_byte(target, source),
            LoadType::Word(target) => Ok(self.load_word(target)),
            LoadType::IndirectFromA(indirect) => self.store_accumulator(indirect),
        }
    }

    /// Executes a byte load.
    fn load_byte(&mut self, target: LoadByteTarget, source: LoadByteSource) -> (result: Result<
        (u16, u8),
        CoreError,
    >)
        ensures
            result is Ok <==> (target == LoadByteTarget::HLI
                ==> accepts_write(old(self).registers.hl())),
            result is Ok ==> final(self)@ == old(self)@.with_byte(
                target,
                old(self)@.source_value(source),
            ),
            result matches Ok(timing) ==> timing == (
                advance(old(self).pc, load_length(LoadType::Byte(target, source))),
                load_cycles(LoadType::Byte(target, source)),
            ),
            result matches Err(error) ==> error == (CoreError::UnmappedWrite {
                address: old(self).registers.hl(),
            }) && *final(self) == *old(self),
    {
        let source_value = match source {
            LoadByteSource::A => self.registers.a,
            LoadByteSource::B => self.registers.b,
            LoadByteSource::C => self.registers.c,
            LoadByteSource::D => self.registers.d,
            LoadByteSource::E => self.registers.e,
            LoadByteSource::H => self.registers.h,
            LoadByteSource::L => self.registers.l,
            LoadByteSource::D8 => self.read_next_byte(),
            LoadByteSource::HLI => self.bus.read_byte(self.registers.get_hl()),
        };
        match target {
            LoadByteTarget::A => self.registers.a = source_value,
            LoadByteTarget::B => self.registers.b = source_value,
            LoadByteTarget::C => self.registers.c = source_value,
            LoadByteTarget::D => self.registers.d = source_value,
            LoadByteTarget::E => self.registers.e = source_value,
            LoadByteTarget::H => self.registers.h = source_value,
            LoadByteTarget::L => self.registers.l = source_value,
            LoadByteTarget::HLI => {
                let mem_addr = self.registers.get_hl();
                match self.bus.write_byte(mem_addr, source_value) {
                    Ok(()) => {},
                    Err(error) => {
                        return Err(error);
                    },
                }
            },
        };
        match source {
            LoadByteSource::D8 => Ok((self.pc.wrapping_add(2), 8)),
            LoadByteSource::HLI => Ok((self.pc.wrapping_add(1), 8)),
            _ => match target {
                LoadByteTarget::HLI => Ok((self.pc.wrapping_add(1), 8)),
                _ => Ok((self.pc.wrapping_add(1), 4)),
            },
        }
    }

    /// Executes a word load.
    fn load_word(&mut self, target: LoadWordTarget) -> (timing: (u16, u8))
        ensures
            final(self)@ == old(self)@.with_word(target, old(self)@.next_word()),
            timing.0 == advance(old(self).pc, 3),
            timing.1 == 12,
    {
        let word = self.read_next_word();
        match target {
            LoadWordTarget::BC => self.registers.set_bc(word),
            LoadWordTarget::DE => self.registers.set_de(word),
            LoadWordTarget::SP => self.sp = word,
            LoadWordTarget::HL => self.registers.set_hl(word),
        }
        (self.pc.wrapping_add(3), 12)
    }

    /// Executes a store of the accumulator. The byte is written before HL
    /// moves, so that a write that fails leaves HL as it was.
    fn store_accumulator(&mut self, indirect: Indirect) -> (result: Result<(u16, u8), CoreError>)
        ensures
            result is Ok <==> accepts_write(old(self)@.indirect_address(indirect)),
            result is Ok ==> final(self)@ == old(self)@.with_accumulator_stored(indirect),
            result matches Ok(timing) ==> timing == (
                advance(old(self).pc, load_length(LoadType::IndirectFromA(indirect))),
                load_cycles(LoadType::IndirectFromA(indirect)),
            ),
            result matches Err(error) ==> error == (CoreError::UnmappedWrite {
                address: old(self)@.indirect_address(indirect),
            }) && *final(self) == *old(self),
    {
        let a = self.registers.a;
        let mem_addr = match indirect {
            Indirect::BCIndirect => self.registers.get_bc(),
            Indirect::DEIndirect => self.registers.get_de(),
            Indirect::HLIndirectMinus => self.registers.get_hl(),
            Indirect::HLIndirectPlus => self.registers.get_hl(),
            Indirect::WordIndirect => self.read_next_word(),
            Indirect::LastByteIndirect => {
                let c = self.registers.c;
                assert(0xFF00u16 | c as u16 == 0xFF * 256 + c) by (bit_vector);
                0xFF00 | c as u16
            },
        };
        match self.bus.write_byte(mem_addr, a) {
            Ok(()) => {},
            Err(error) => {
                return Err(error);
            },
        }
        match indirect {
            Indirect::HLIndirectMinus => {
                self.registers.set_hl(mem_addr.wrapping_sub(1));
            },
            Indirect::HLIndirectPlus => {
                self.registers.set_hl(mem_addr.wrapping_add(1));
            },
            _ => {},
        }
        match indirect {
            Indirect::WordIndirect => Ok((self.pc.wrapping_add(3), 16)),
            Indirect::LastByteIndirect => Ok((self.pc.wrapping_add(2), 8)),
            _ => Ok((self.pc.wrapping_add(1), 8)),
        }
    }

    /// Reads the opcode at the program counter, past the prefix byte where
    /// there is one.
    fn fetch(&self) -> (opcode: (u8, bool))
        ensures
            opcode == self@.opcode(),
    {
        let mut instruction_byte = self.bus.read_byte(self.pc);
        let prefixed = instruction_byte == PREFIX_BYTE;
        if prefixed {
            instruction_byte = self.bus.read_byte(self.pc.wrapping_add(1));
        }
        (instruction_byte, prefixed)
    }

    /// Reads the operand of an arithmetic or logic instruction.
    fn read_operand(&self, target: ArithmeticTarget) -> (value: u8)
        ensures
            value == self@.operand(target),
    {
        match target {
            ArithmeticTarget::A => self.registers.a,
            ArithmeticTarget::B => self.registers.b,
            ArithmeticTarget::C => self.registers.c,
            ArithmeticTarget::D => self.registers.d,
            ArithmeticTarget::E => self.registers.e,
            ArithmeticTarget::H => self.registers.h,
            ArithmeticTarget::L => self.registers.l,
            ArithmeticTarget::HLI => self.bus.read_byte(self.registers.get_hl()),
        }
    }

    /// Where the program counter goes after an arithmetic or logic
    /// instruction, and the cycles it takes.
    fn arithmetic_timing(&self, target: ArithmeticTarget) -> (timing: (u16, u8))
        ensures
            timing.0 == advance(self.pc, 1),
            timing.1 == arithmetic_cycles(target),
    {
        match target {
            ArithmeticTarget::HLI => (self.pc.wrapping_add(1), 8),
            _ => (self.pc.wrapping_add(1), 4),
        }
    }

    /// SBC: subtracts `value` and the carry flag from the accumulator.
    pub fn sub_with_carry(&mut self, value: u8) -> (result: u8)
        ensures
            result == difference(old(self).registers.a, value, old(self).registers.f.carry),
            *final(self) == old(self).with_flags(
                difference_flags(old(self).registers.a, value, old(self).registers.f.carry),
            ),
    {
        self.sub(value, true)
    }

    /// SUB: subtracts `value` from the accumulator.
    pub fn sub_without_carry(&mut self, value: u8) -> (result: u8)
        ensures
            result == difference(old(self).registers.a, value, false),
            *final(self) == old(self).with_flags(
                difference_flags(old(self).registers.a, value, false),
            ),
    {
        self.sub(value, false)
    }

    /// Subtracts `value` from the accumulator, and the carry flag too where
    /// `carry` asks for it. Returns the result and sets the flags; the
    /// accumulator itself is left to the caller.
    pub fn sub(&mut self, value: u8, carry: bool) -> (result: u8)
        ensures
            result == difference(
                old(self).registers.a,
                value,
                carry && old(self).registers.f.carry,
            ),
            *final(self) == old(self).with_flags(
                difference_flags(
                    old(self).registers.a,
                    value,
                    carry && old(self).registers.f.carry,
                ),
            ),
    {
        let carry_value: u8 = if carry && self.registers.f.carry {
            1
        } else {
            0
        };
        let a = self.registers.a;
        let new_value = a.wrapping_sub(value);
        let overflow = a < value;
        let new_value2 = new_value.wrapping_sub(carry_value);
        let overflow2 = new_value < carry_value;
        proof {
            lemma_low_nibble(a);
            lemma_low_nibble(value);
        }
        self.registers.f.zero = new_value2 == 0;
        self.registers.f.subtract = true;
        self.registers.f.carry = overflow || overflow2;
        self.registers.f.half_carry = (a & 0xF) < (value & 0xF) + carry_value;
        new_value2
    }

    /// ADD: adds `value` to the accumulator.
    pub fn add_without_carry(&mut self, value: u8) -> (result: u8)
        ensures
            result == sum(old(self).registers.a, value, false),
            *final(self) == old(self).with_flags(sum_flags(old(self).registers.a, value, false)),
    {
        self.add(value, false)
    }

    /// ADC: adds `value` and the carry flag to the accumulator.
    pub fn add_with_carry(&mut self, value: u8) -> (result: u8)
        ensures
            result == sum(old(self).registers.a, value, old(self).registers.f.carry),
            *final(self) == old(self).with_flags(
                sum_flags(old(self).registers.a, value, old(self).registers.f.carry),
            ),
    {
        self.add(value, true)
    }

    /// Adds `value` to the accumulator, and the carry flag too where `carry`
    /// asks for it. Returns the result and sets the flags; the accumulator
    /// itself is left to the caller.
    pub fn add(&mut self, value: u8, carry: bool) -> (result: u8)
        ensures
            result == sum(old(self).registers.a, value, carry && old(self).registers.f.carry),
            *final(self) == old(self).with_flags(
                sum_flags(old(self).registers.a, value, carry && old(self).registers.f.carry),
            ),
    {
        let carry_value: u8 = if carry && self.registers.f.carry {
            1
        } else {
            0
        };
        let a = self.registers.a;
        let new_value = a.wrapping_add(value);
        let overflow = new_value < a;
        let new_value2 = new_value.wrapping_add(carry_value);
        let overflow2 = new_value2 < new_value;
        proof {
            lemma_low_nibble(a);
            lemma_low_nibble(value);
        }
        self.registers.f.zero = new_value2 == 0;
        self.registers.f.subtract = false;
        self.registers.f.carry = overflow || overflow2;
        // The carry out of the low nibble: the two low nibbles and the
        // carry that came in add up to more than 0xF.
        self.registers.f.half_carry = (a & 0xF) + (value & 0xF) + carry_value > 0xF;
        new_value2
    }

    /// AND of the accumulator and `value`. Returns the result and sets the
    /// flags.
    pub fn and(&mut self, value: u8) -> (result: u8)
        ensures
            result == old(self).registers.a & value,
            *final(self) == old(self).with_flags(logic_flags(result, true)),
    {
        let new_value = self.registers.a & value;
        self.registers.f.clear();
        self.registers.f.zero = new_value == 0;
        self.registers.f.half_carry = true;
        new_value
    }

    /// OR of the accumulator and `value`. Returns the result and sets the
    /// flags.
    pub fn or(&mut self, value: u8) -> (result: u8)
        ensures
            result == old(self).registers.a | value,
            *final(self) == old(self).with_flags(logic_flags(result, false)),
    {
        let new_value = self.registers.a | value;
        self.registers.f.clear();
        self.registers.f.zero = new_value == 0;
        new_value
    }

    /// XOR of the accumulator and `value`. Returns the result and sets the
    /// flags; the zero flag goes by the result.
    pub fn xor(&mut self, value: u8) -> (result: u8)
        ensures
            result == old(self).registers.a ^ value,
            *final(self) == old(self).with_flags(logic_flags(result, false)),
    {
        let new_value = self.registers.a ^ value;
        self.registers.f.clear();
        self.registers.f.zero = new_value == 0;
        new_value
    }

    /// CP: sets the flags as a subtraction of `value` from the accumulator
    /// would, and keeps no result.
    pub fn compare(&mut self, value: u8)
        ensures
            *final(self) == old(self).with_flags(
                difference_flags(old(self).registers.a, value, false),
            ),
    {
        proof {
            lemma_low_nibble(self.registers.a);
            lemma_low_nibble(value);
        }
        self.registers.f.clear();
        self.registers.f.zero = self.registers.a == value;
        self.registers.f.subtract = true;
        self.registers.f.half_carry = (self.registers.a & 0xF) < (value & 0xF);
        self.registers.f.carry = self.registers.a < value;
    }

    /// BIT: tests the bit of `value` at `position`, and sets the flags by it.
    pub fn bit_test(&mut self, value: u8, position: BitPosition)
        ensures
            *final(self) == old(self).with_flags(
                bit_test_flags(value, position, old(self).registers.f),
            ),
    {
        let mask: u8 = match position {
            BitPosition::B0 => 0x01,
            BitPosition::B1 => 0x02,
            BitPosition::B2 => 0x04,
            BitPosition::B3 => 0x08,
            BitPosition::B4 => 0x10,
            BitPosition::B5 => 0x20,
            BitPosition::B6 => 0x40,
            BitPosition::B7 => 0x80,
        };
        assert((value & mask != 0) == bit_is_set(value, position)) by {
            assert((value & 0x01 != 0) == ((value / 1) % 2 == 1)) by (bit_vector);
            assert((value & 0x02 != 0) == ((value / 2) % 2 == 1)) by (bit_vector);
            assert((value & 0x04 != 0) == ((value / 4) % 2 == 1)) by (bit_vector);
            assert((value & 0x08 != 0) == ((value / 8) % 2 == 1)) by (bit_vector);
            assert((value & 0x10 != 0) == ((value / 16) % 2 == 1)) by (bit_vector);
            assert((value & 0x20 != 0) == ((value / 32) % 2 == 1)) by (bit_vector);
            assert((value & 0x40 != 0) == ((value / 64) % 2 == 1)) by (bit_vector);
            assert((value & 0x80 != 0) == ((value / 128) % 2 == 1)) by (bit_vector);
        }
        self.registers.f.zero = value & mask == 0;
        self.registers.f.subtract = false;
        self.registers.f.half_carry = true;
    }

    /// Reads the byte right after the opcode.
    pub fn read_next_byte(&self) -> (byte: u8)
        ensures
            byte == self@.next_byte(),
    {
        self.bus.read_byte(self.pc.wrapping_add(1))
    }

    /// Reads the word right after the opcode. The low byte comes first.
    pub fn read_next_word(&self) -> (word: u16)
        ensures
            word == self@.next_word(),
    {
        let low = self.bus.read_byte(self.pc.wrapping_add(1));
        let high = self.bus.read_byte(self.pc.wrapping_add(2));
        proof {
            lemma_pair_bits(high, low);
        }
        (high as u16) << 8 | low as u16
    }
}

} // verus!
