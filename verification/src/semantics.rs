//! What each instruction does to the machine state, and what one turn of the
//! fetch-decode-execute cycle does, as functions on the model.
//!
//! An instruction that reads an operand is a function of the addressing
//! mode and yields `None` under a mode that has no operand; the others are
//! total.

use crate::cpu::{AddressingMode, CpuError, StepOutcome};
use crate::flags::{
    flag, pulled_status, pushed_status, with_flag, with_zero_negative, CARRY, DECIMAL,
    INTERRUPT_DISABLE, NEGATIVE, OVERFLOW, ZERO,
};
use crate::model::{signed, wrap_byte, wrap_word, CpuState};
use crate::opcodes::{accepts, instruction, instruction_len, Mnemonic};
use vstd::prelude::*;

verus! {

/// Result of shifting `value` left by one bit, `carry` entering at bit 0.
pub open spec fn shifted_left(value: u8, carry: bool) -> u8 {
    wrap_byte(2 * value + if carry { 1int } else { 0int })
}

/// Result of shifting `value` right by one bit, `carry` entering at bit 7.
pub open spec fn shifted_right(value: u8, carry: bool) -> u8 {
    (value / 2 + if carry { 0x80int } else { 0int }) as u8
}

/// Bit 7 of `value`, which a left shift moves into the carry.
pub open spec fn top_bit(value: u8) -> bool {
    value >= 0x80
}

/// Bit 0 of `value`, which a right shift moves into the carry.
pub open spec fn bottom_bit(value: u8) -> bool {
    value % 2 == 1
}

/// Whether `mnemonic` is a branch whose condition holds in `state`.
pub open spec fn branch_taken(state: CpuState, mnemonic: Mnemonic) -> bool {
    match mnemonic {
        Mnemonic::BCC => !flag(state.status, CARRY),
        Mnemonic::BCS => flag(state.status, CARRY),
        Mnemonic::BEQ => flag(state.status, ZERO),
        Mnemonic::BNE => !flag(state.status, ZERO),
        Mnemonic::BMI => flag(state.status, NEGATIVE),
        Mnemonic::BPL => !flag(state.status, NEGATIVE),
        Mnemonic::BVC => !flag(state.status, OVERFLOW),
        Mnemonic::BVS => flag(state.status, OVERFLOW),
        _ => false,
    }
}

/// Whether `mnemonic`, executed in `state`, sets the program counter itself:
/// a jump, a call, a return, or a branch that is taken.
pub open spec fn sets_program_counter(state: CpuState, mnemonic: Mnemonic) -> bool {
    mnemonic == Mnemonic::JMP || mnemonic == Mnemonic::JSR || mnemonic == Mnemonic::RTS || mnemonic
        == Mnemonic::RTI || branch_taken(state, mnemonic)
}

/// What a routine that may lack its operand must do: reach the `expected`
/// state and succeed, or, where there is none, leave the machine as it was
/// and report the addressing mode.
pub open spec fn performed(
    before: CpuState,
    expected: Option<CpuState>,
    result: Result<(), CpuError>,
    after: CpuState,
) -> bool {
    match expected {
        Some(state) => result is Ok && after == state,
        None => result == Err::<(), CpuError>(CpuError::InvalidAddressingMode) && after == before,
    }
}

impl CpuState {
    /// The state with one flag set or cleared.
    pub open spec fn flagged(self, mask: u8, on: bool) -> CpuState {
        self.with_status(with_flag(self.status, mask, on))
    }

    /// The state with Z and N reporting `result`.
    pub open spec fn report(self, result: u8) -> CpuState {
        self.with_status(with_zero_negative(self.status, result))
    }

    /// The carry flag as a number.
    pub open spec fn carry(self) -> int {
        if flag(self.status, CARRY) {
            1
        } else {
            0
        }
    }

    /// `value` goes to the accumulator and is reported in Z and N.
    pub open spec fn load_a(self, value: u8) -> CpuState {
        CpuState { register_a: value, ..self }.report(value)
    }

    /// `value` goes to X and is reported in Z and N.
    pub open spec fn load_x(self, value: u8) -> CpuState {
        CpuState { register_x: value, ..self }.report(value)
    }

    /// `value` goes to Y and is reported in Z and N.
    pub open spec fn load_y(self, value: u8) -> CpuState {
        CpuState { register_y: value, ..self }.report(value)
    }

    /// The accumulator plus `value` plus the carry. The low eight bits of
    /// the sum go to the accumulator, its ninth bit to C; V is set iff the
    /// sum of the two read as signed bytes, and the carry, does not fit in
    /// a signed byte.
    pub open spec fn add_with_carry(self, value: u8) -> CpuState {
        let sum = self.register_a + value + self.carry();
        let signed_sum = signed(self.register_a) + signed(value) + self.carry();
        let overflow = signed_sum < -0x80 || signed_sum > 0x7F;
        self.flagged(CARRY, sum > 0xFF).flagged(OVERFLOW, overflow).load_a(wrap_byte(sum))
    }

    /// `register` compared with `value`: C is set iff `register >= value`,
    /// Z and N report the wrapping difference.
    pub open spec fn compare(self, register: u8, value: u8) -> CpuState {
        self.flagged(CARRY, register >= value).report(wrap_byte(register - value))
    }

    /// `register` compared with the operand.
    pub open spec fn compare_operand(self, mode: AddressingMode, register: u8) -> Option<
        CpuState,
    > {
        match self.operand_address(mode) {
            Some(addr) => Some(self.compare(register, self.read(addr))),
            None => None,
        }
    }

    /// The byte that a shift or rotate works on: the accumulator under
    /// `Accumulator`, else the byte at the operand address.
    pub open spec fn shift_input(self, mode: AddressingMode) -> Option<u8> {
        if mode == AddressingMode::Accumulator {
            Some(self.register_a)
        } else {
            match self.operand_address(mode) {
                Some(addr) => Some(self.read(addr)),
                None => None,
            }
        }
    }

    /// A shift or rotate puts `result` back where its input came from,
    /// moves the bit shifted out into C and reports `result` in Z and N.
    pub open spec fn shift_output(self, mode: AddressingMode, result: u8, out: bool) -> Option<
        CpuState,
    > {
        if mode == AddressingMode::Accumulator {
            Some(CpuState { register_a: result, ..self }.flagged(CARRY, out).report(result))
        } else {
            match self.operand_address(mode) {
                Some(addr) => Some(self.write(addr, result).flagged(CARRY, out).report(result)),
                None => None,
            }
        }
    }

    /// A branch: if `condition` holds, the program counter goes to the
    /// target that the offset byte designates.
    pub open spec fn branch(self, condition: bool) -> CpuState {
        match self.operand_address(AddressingMode::Relative) {
            Some(target) if condition => self.jump(target),
            _ => self,
        }
    }

    /// ADC: add memory and carry to the accumulator.
    pub open spec fn adc(self, mode: AddressingMode) -> Option<CpuState> {
        match self.operand_address(mode) {
            Some(addr) => Some(self.add_with_carry(self.read(addr))),
            None => None,
        }
    }

    /// AND: bitwise and of accumulator and memory.
    pub open spec fn and(self, mode: AddressingMode) -> Option<CpuState> {
        match self.operand_address(mode) {
            Some(addr) => Some(self.load_a(self.register_a & self.read(addr))),
            None => None,
        }
    }

    /// ASL: shift left by one bit.
    pub open spec fn asl(self, mode: AddressingMode) -> Option<CpuState> {
        match self.shift_input(mode) {
            Some(value) => self.shift_output(mode, shifted_left(value, false), top_bit(value)),
            None => None,
        }
    }

    /// BCC: branch if carry is clear.
    pub open spec fn bcc(self) -> CpuState {
        self.branch(!flag(self.status, CARRY))
    }

    /// BCS: branch if carry is set.
    pub open spec fn bcs(self) -> CpuState {
        self.branch(flag(self.status, CARRY))
    }

    /// BEQ: branch if zero is set.
    pub open spec fn beq(self) -> CpuState {
        self.branch(flag(self.status, ZERO))
    }

    /// Z says whether the accumulator and the operand share no bit; N and V
    /// take bits 7 and 6 of the operand.
    pub open spec fn bit(self, mode: AddressingMode) -> Option<CpuState> {
        match self.operand_address(mode) {
            Some(addr) => {
                let value = self.read(addr);
                Some(
                    self.flagged(ZERO, self.register_a & value == 0).flagged(
                        NEGATIVE,
                        flag(value, NEGATIVE),
                    ).flagged(OVERFLOW, flag(value, OVERFLOW)),
                )
            },
            None => None,
        }
    }

    /// BMI: branch if negative is set.
    pub open spec fn bmi(self) -> CpuState {
        self.branch(flag(self.status, NEGATIVE))
    }

    /// BNE: branch if zero is clear.
    pub open spec fn bne(self) -> CpuState {
        self.branch(!flag(self.status, ZERO))
    }

    /// BPL: branch if negative is clear.
    pub open spec fn bpl(self) -> CpuState {
        self.branch(!flag(self.status, NEGATIVE))
    }

    /// BVC: branch if overflow is clear.
    pub open spec fn bvc(self) -> CpuState {
        self.branch(!flag(self.status, OVERFLOW))
    }

    /// BVS: branch if overflow is set.
    pub open spec fn bvs(self) -> CpuState {
        self.branch(flag(self.status, OVERFLOW))
    }

    /// CLC: clear carry.
    pub open spec fn clc(self) -> CpuState {
        self.flagged(CARRY, false)
    }

    /// CLD: clear decimal mode.
    pub open spec fn cld(self) -> CpuState {
        self.flagged(DECIMAL, false)
    }

    /// CLI: clear interrupt disable.
    pub open spec fn cli(self) -> CpuState {
        self.flagged(INTERRUPT_DISABLE, false)
    }

    /// CLV: clear overflow.
    pub open spec fn clv(self) -> CpuState {
        self.flagged(OVERFLOW, false)
    }

    /// CMP: compare memory with the accumulator.
    pub open spec fn cmp(self, mode: AddressingMode) -> Option<CpuState> {
        self.compare_operand(mode, self.register_a)
    }

    /// CPX: compare memory with X.
    pub open spec fn cpx(self, mode: AddressingMode) -> Option<CpuState> {
        self.compare_operand(mode, self.register_x)
    }

    /// CPY: compare memory with Y.
    pub open spec fn cpy(self, mode: AddressingMode) -> Option<CpuState> {
        self.compare_operand(mode, self.register_y)
    }

    /// DEC: decrement memory.
    pub open spec fn dec(self, mode: AddressingMode) -> Option<CpuState> {
        match self.operand_address(mode) {
            Some(addr) => {
                let result = wrap_byte(self.read(addr) - 1);
                Some(self.write(addr, result).report(result))
            },
            None => None,
        }
    }

    /// DEX: decrement X.
    pub open spec fn dex(self) -> CpuState {
        self.load_x(wrap_byte(self.register_x - 1))
    }

    /// DEY: decrement Y.
    pub open spec fn dey(self) -> CpuState {
        self.load_y(wrap_byte(self.register_y - 1))
    }

    /// EOR: bitwise exclusive or of accumulator and memory.
    pub open spec fn eor(self, mode: AddressingMode) -> Option<CpuState> {
        match self.operand_address(mode) {
            Some(addr) => Some(self.load_a(self.register_a ^ self.read(addr))),
            None => None,
        }
    }

    /// INC: increment memory.
    pub open spec fn inc(self, mode: AddressingMode) -> Option<CpuState> {
        match self.operand_address(mode) {
            Some(addr) => {
                let result = wrap_byte(self.read(addr) + 1);
                Some(self.write(addr, result).report(result))
            },
            None => None,
        }
    }

    /// INX: increment X.
    pub open spec fn inx(self) -> CpuState {
        self.load_x(wrap_byte(self.register_x + 1))
    }

    /// INY: increment Y.
    pub open spec fn iny(self) -> CpuState {
        self.load_y(wrap_byte(self.register_y + 1))
    }

    /// JMP: jump.
    pub open spec fn jmp(self, mode: AddressingMode) -> Option<CpuState> {
        match self.operand_address(mode) {
            Some(addr) => Some(self.jump(addr)),
            None => None,
        }
    }

    /// The address of the last byte of the JSR instruction is pushed, then
    /// the program counter goes to the operand address.
    pub open spec fn jsr(self, mode: AddressingMode) -> Option<CpuState> {
        match self.operand_address(mode) {
            Some(addr) => Some(self.push_u16(wrap_word(self.program_counter + 1)).jump(addr)),
            None => None,
        }
    }

    /// LDA: load the accumulator.
    pub open spec fn lda(self, mode: AddressingMode) -> Option<CpuState> {
        match self.operand_address(mode) {
            Some(addr) => Some(self.load_a(self.read(addr))),
            None => None,
        }
    }

    /// LDX: load X.
    pub open spec fn ldx(self, mode: AddressingMode) -> Option<CpuState> {
        match self.operand_address(mode) {
            Some(addr) => Some(self.load_x(self.read(addr))),
            None => None,
        }
    }

    /// LDY: load Y.
    pub open spec fn ldy(self, mode: AddressingMode) -> Option<CpuState> {
        match self.operand_address(mode) {
            Some(addr) => Some(self.load_y(self.read(addr))),
            None => None,
        }
    }

    /// LSR: shift right by one bit.
    pub open spec fn lsr(self, mode: AddressingMode) -> Option<CpuState> {
        match self.shift_input(mode) {
            Some(value) => self.shift_output(mode, shifted_right(value, false), bottom_bit(value)),
            None => None,
        }
    }

    /// NOP: do nothing.
    pub open spec fn nop(self) -> CpuState {
        self
    }

    /// ORA: bitwise or of accumulator and memory.
    pub open spec fn ora(self, mode: AddressingMode) -> Option<CpuState> {
        match self.operand_address(mode) {
            Some(addr) => Some(self.load_a(self.register_a | self.read(addr))),
            None => None,
        }
    }

    /// PHA: push the accumulator.
    pub open spec fn pha(self) -> CpuState {
        self.push(self.register_a)
    }

    /// PHP: push the status byte.
    pub open spec fn php(self) -> CpuState {
        self.push(pushed_status(self.status))
    }

    /// PLA: pull the accumulator.
    pub open spec fn pla(self) -> CpuState {
        self.pull().load_a(self.pulled())
    }

    /// PLP: pull the status byte.
    pub open spec fn plp(self) -> CpuState {
        self.pull().with_status(pulled_status(self.pulled()))
    }

    /// ROL: rotate left through carry.
    pub open spec fn rol(self, mode: AddressingMode) -> Option<CpuState> {
        match self.shift_input(mode) {
            Some(value) => self.shift_output(
                mode,
                shifted_left(value, flag(self.status, CARRY)),
                top_bit(value),
            ),
            None => None,
        }
    }

    /// ROR: rotate right through carry.
    pub open spec fn ror(self, mode: AddressingMode) -> Option<CpuState> {
        match self.shift_input(mode) {
            Some(value) => self.shift_output(
                mode,
                shifted_right(value, flag(self.status, CARRY)),
                bottom_bit(value),
            ),
            None => None,
        }
    }

    /// The status byte is pulled as by PLP, then the program counter, which
    /// is taken as it was pushed.
    pub open spec fn rti(self) -> CpuState {
        self.plp().pull_u16().jump(self.plp().pulled_u16())
    }

    /// The program counter is pulled and goes one past the address that was
    /// pushed.
    pub open spec fn rts(self) -> CpuState {
        self.pull_u16().jump(wrap_word(self.pulled_u16() + 1))
    }

    /// Subtraction is the addition of the one's complement of the operand.
    pub open spec fn sbc(self, mode: AddressingMode) -> Option<CpuState> {
        match self.operand_address(mode) {
            Some(addr) => Some(self.add_with_carry((0xFF - self.read(addr)) as u8)),
            None => None,
        }
    }

    /// SEC: set carry.
    pub open spec fn sec(self) -> CpuState {
        self.flagged(CARRY, true)
    }

    /// SED: set decimal mode.
    pub open spec fn sed(self) -> CpuState {
        self.flagged(DECIMAL, true)
    }

    /// SEI: set interrupt disable.
    pub open spec fn sei(self) -> CpuState {
        self.flagged(INTERRUPT_DISABLE, true)
    }

    /// STA: store the accumulator.
    pub open spec fn sta(self, mode: AddressingMode) -> Option<CpuState> {
        match self.operand_address(mode) {
            Some(addr) => Some(self.write(addr, self.register_a)),
            None => None,
        }
    }

    /// STX: store X.
    pub open spec fn stx(self, mode: AddressingMode) -> Option<CpuState> {
        match self.operand_address(mode) {
            Some(addr) => Some(self.write(addr, self.register_x)),
            None => None,
        }
    }

    /// STY: store Y.
    pub open spec fn sty(self, mode: AddressingMode) -> Option<CpuState> {
        match self.operand_address(mode) {
            Some(addr) => Some(self.write(addr, self.register_y)),
            None => None,
        }
    }

    /// TAX: copy the accumulator to X.
    pub open spec fn tax(self) -> CpuState {
        self.load_x(self.register_a)
    }

    /// TAY: copy the accumulator to Y.
    pub open spec fn tay(self) -> CpuState {
        self.load_y(self.register_a)
    }

    /// TSX: copy the stack pointer to X.
    pub open spec fn tsx(self) -> CpuState {
        self.load_x(self.stack_pointer)
    }

    /// TXA: copy X to the accumulator.
    pub open spec fn txa(self) -> CpuState {
        self.load_a(self.register_x)
    }

    /// TXS: copy X to the stack pointer.
    pub open spec fn txs(self) -> CpuState {
        CpuState { stack_pointer: self.register_x, ..self }
    }

    /// TYA: copy Y to the accumulator.
    pub open spec fn tya(self) -> CpuState {
        self.load_a(self.register_y)
    }

    /// The state after the semantic routine of `mnemonic` has run under
    /// `mode`, with the program counter at the first operand byte. `None`
    /// where the instruction needs an operand that `mode` does not give.
    ///
    /// The dispatch is opaque, so that a proof about the cycle does not
    /// unfold every instruction: `reveal(CpuState::execute)` where the
    /// routine of a given instruction is needed.
    #[verifier::opaque]
    pub open spec fn execute(self, mnemonic: Mnemonic, mode: AddressingMode) -> Option<CpuState> {
        match mnemonic {
            Mnemonic::ADC => self.adc(mode),
            Mnemonic::AND => self.and(mode),
            Mnemonic::ASL => self.asl(mode),
            Mnemonic::BCC => Some(self.bcc()),
            Mnemonic::BCS => Some(self.bcs()),
            Mnemonic::BEQ => Some(self.beq()),
            Mnemonic::BIT => self.bit(mode),
            Mnemonic::BMI => Some(self.bmi()),
            Mnemonic::BNE => Some(self.bne()),
            Mnemonic::BPL => Some(self.bpl()),
            Mnemonic::BRK => Some(self),
            Mnemonic::BVC => Some(self.bvc()),
            Mnemonic::BVS => Some(self.bvs()),
            Mnemonic::CLC => Some(self.clc()),
            Mnemonic::CLD => Some(self.cld()),
            Mnemonic::CLI => Some(self.cli()),
            Mnemonic::CLV => Some(self.clv()),
            Mnemonic::CMP => self.cmp(mode),
            Mnemonic::CPX => self.cpx(mode),
            Mnemonic::CPY => self.cpy(mode),
            Mnemonic::DEC => self.dec(mode),
            Mnemonic::DEX => Some(self.dex()),
            Mnemonic::DEY => Some(self.dey()),
            Mnemonic::EOR => self.eor(mode),
            Mnemonic::INC => self.inc(mode),
            Mnemonic::INX => Some(self.inx()),
            Mnemonic::INY => Some(self.iny()),
            Mnemonic::JMP => self.jmp(mode),
            Mnemonic::JSR => self.jsr(mode),
            Mnemonic::LDA => self.lda(mode),
            Mnemonic::LDX => self.ldx(mode),
            Mnemonic::LDY => self.ldy(mode),
            Mnemonic::LSR => self.lsr(mode),
            Mnemonic::NOP => Some(self.nop()),
            Mnemonic::ORA => self.ora(mode),
            Mnemonic::PHA => Some(self.pha()),
            Mnemonic::PHP => Some(self.php()),
            Mnemonic::PLA => Some(self.pla()),
            Mnemonic::PLP => Some(self.plp()),
            Mnemonic::ROL => self.rol(mode),
            Mnemonic::ROR => self.ror(mode),
            Mnemonic::RTI => Some(self.rti()),
            Mnemonic::RTS => Some(self.rts()),
            Mnemonic::SBC => self.sbc(mode),
            Mnemonic::SEC => Some(self.sec()),
            Mnemonic::SED => Some(self.sed()),
            Mnemonic::SEI => Some(self.sei()),
            Mnemonic::STA => self.sta(mode),
            Mnemonic::STX => self.stx(mode),
            Mnemonic::STY => self.sty(mode),
            Mnemonic::TAX => Some(self.tax()),
            Mnemonic::TAY => Some(self.tay()),
            Mnemonic::TSX => Some(self.tsx()),
            Mnemonic::TXA => Some(self.txa()),
            Mnemonic::TXS => Some(self.txs()),
            Mnemonic::TYA => Some(self.tya()),
        }
    }

    /// The opcode byte that the next fetch reads.
    pub open spec fn opcode(self) -> u8 {
        self.read(self.program_counter)
    }

    /// The state right after the opcode fetch: the program counter is at the
    /// byte after the opcode.
    pub open spec fn fetched(self) -> CpuState {
        self.jump(wrap_word(self.program_counter + 1))
    }

    /// The state with the program counter moved back over the byte that
    /// was fetched last.
    pub open spec fn unfetched(self) -> CpuState {
        self.jump(wrap_word(self.program_counter - 1))
    }

    /// The state with the program counter moved over the operand bytes of an
    /// instruction of `len` bytes, provided the instruction left the
    /// program counter where the fetch had put it.
    pub open spec fn advanced(self, fetched_at: u16, len: u8) -> CpuState {
        if self.program_counter == fetched_at {
            self.jump(wrap_word(self.program_counter + len - 1))
        } else {
            self
        }
    }

    /// The state after the routine of a fetched instruction has run and
    /// the program counter has moved over the operand, unless the routine
    /// has moved it. BRK has no routine.
    pub open spec fn turn(self, mnemonic: Mnemonic, mode: AddressingMode) -> CpuState {
        match self.execute(mnemonic, mode) {
            Some(next) if mnemonic != Mnemonic::BRK => next.advanced(
                self.program_counter,
                instruction_len(mode),
            ),
            _ => self,
        }
    }

    /// The state after one turn of the cycle: the opcode is fetched and
    /// looked up, its routine runs, and the program counter moves over the
    /// operand unless the routine has moved it. For BRK, and for a byte that
    /// is no opcode, only the fetch happens.
    pub open spec fn step(self) -> CpuState {
        match instruction(self.opcode()) {
            Some((mnemonic, mode)) => self.fetched().turn(mnemonic, mode),
            None => self.fetched(),
        }
    }

    /// How one turn of the cycle ends: with an error for a byte that is no
    /// opcode, halted for BRK, running otherwise.
    pub open spec fn step_outcome(self) -> Result<StepOutcome, CpuError> {
        match instruction(self.opcode()) {
            Some((mnemonic, _)) => if mnemonic == Mnemonic::BRK {
                Ok(StepOutcome::Halted)
            } else {
                Ok(StepOutcome::Running)
            },
            None => Err(CpuError::UnknownOpcode(self.opcode())),
        }
    }

    /// The next fetch ends the run: it reads BRK or a byte that is no opcode.
    pub open spec fn stops(self) -> bool {
        self.step_outcome() != Ok::<StepOutcome, CpuError>(StepOutcome::Running)
    }

    /// The state after `n` turns of the cycle.
    pub open spec fn after(self, n: nat) -> CpuState
        decreases n,
    {
        if n == 0 {
            self
        } else {
            self.after((n - 1) as nat).step()
        }
    }

    /// The run ends at turn `n`: `n` instructions execute, and the fetch
    /// after them stops the run.
    pub open spec fn halts_after(self, n: nat) -> bool {
        &&& self.after(n).stops()
        &&& forall|k: nat| k < n ==> !#[trigger] self.after(k).stops()
    }

    /// The run ends at some turn.
    pub open spec fn halts(self) -> bool {
        exists|n: nat| #[trigger] self.after(n).stops()
    }

    /// The number of instructions that execute before the run ends.
    pub open spec fn run_length(self) -> nat {
        choose|n: nat| self.halts_after(n)
    }

    /// The state in which the run ends: that after the last fetch.
    pub open spec fn run(self) -> CpuState {
        self.after(self.run_length()).step()
    }

    /// How the run ends: well on BRK, with an error on a byte that is no
    /// opcode.
    pub open spec fn run_outcome(self) -> Result<(), CpuError> {
        match self.after(self.run_length()).step_outcome() {
            Err(error) => Err(error),
            Ok(_) => Ok(()),
        }
    }
}

/// The state `last`, the fetch in which stops the run, is where a run
/// ended that left the machine in `end` with `result`.
pub open spec fn ended_at(last: CpuState, end: CpuState, result: Result<(), CpuError>) -> bool {
    &&& last.stops()
    &&& end == last.step()
    &&& result == match last.step_outcome() {
        Err(error) => Err::<(), CpuError>(error),
        Ok(_) => Ok(()),
    }
}

/// `turns` are the states in which the turns of a run began: it starts in
/// `first`, every state but `last` lets the run go on, and `last` is the
/// state in which the final turn began.
pub open spec fn chain(turns: Seq<CpuState>, first: CpuState, last: CpuState) -> bool {
    &&& turns.len() > 0
    &&& turns[0] == first
    &&& turns.last() == last
    &&& forall|i: int| 0 <= i < turns.len() - 1 ==> !(#[trigger] turns[i]).stops()
}

/// A turn that stops the run only fetches, so that moving the program
/// counter back over the fetched byte gives the state before it.
pub proof fn lemma_stop_fetches(state: CpuState)
    requires
        state.stops(),
    ensures
        state.step() == state.fetched(),
        state.step().unfetched() == state,
{
}

/// The turn after a state that does not stop the run is one turn nearer to
/// the end of the run.
pub proof fn lemma_step_shortens(state: CpuState)
    requires
        state.halts(),
        !state.stops(),
    ensures
        state.step().halts(),
        state.step().run_length() + 1 == state.run_length(),
{
    lemma_halts(state);
    let total = state.run_length();
    lemma_turn_goes_on(state, total, 0);
    let rest = (total - 1) as nat;
    assert forall|k: nat| k <= rest implies #[trigger] state.step().after(k) == state.after(
        k + 1,
    ) by {
        lemma_after_step(state, k);
    }
    assert(state.step().halts_after(rest)) by {
        assert forall|k: nat| k < rest implies !#[trigger] state.step().after(k).stops() by {
            assert(!state.after(k + 1).stops());
        }
    }
    lemma_run_length(state.step(), rest);
}

/// Taking one turn and then `n` is taking `n + 1` turns.
pub proof fn lemma_after_step(state: CpuState, n: nat)
    ensures
        state.step().after(n) == state.after(n + 1),
    decreases n,
{
    if n > 0 {
        lemma_after_step(state, (n - 1) as nat);
    } else {
        assert(state.after(1) == state.after(0).step());
    }
}

/// A run from a state that stops it ends at once, behind the byte that
/// was fetched.
pub proof fn lemma_run_stops(state: CpuState)
    requires
        state.stops(),
    ensures
        state.halts(),
        state.run_length() == 0,
        state.run() == state.fetched(),
        ended_at(state, state.run(), state.run_outcome()),
{
    assert(state.after(0) == state);
    assert(state.halts_after(0));
    lemma_run_length(state, 0);
    lemma_stop_fetches(state);
}

/// A run from a state that does not stop it is the run from the state
/// after one turn.
pub proof fn lemma_run_goes_on(state: CpuState)
    requires
        !state.stops(),
        state.step().halts(),
    ensures
        state.halts(),
        state.run_length() == state.step().run_length() + 1,
        state.run() == state.step().run(),
        state.run_outcome() == state.step().run_outcome(),
{
    let next = state.step();
    lemma_halts(next);
    let rest = next.run_length();
    assert forall|k: nat| k <= rest implies #[trigger] next.after(k) == state.after(k + 1) by {
        lemma_after_step(state, k);
    }
    assert(state.after(0) == state);
    assert(state.halts_after(rest + 1)) by {
        assert forall|k: nat| k < rest + 1 implies !#[trigger] state.after(k).stops() by {
            if k > 0 {
                assert(next.after((k - 1) as nat) == state.after(k));
            }
        }
    }
    lemma_run_length(state, rest + 1);
}

/// Under a mode that the table lists for an instruction, the instruction
/// finds its operand.
pub proof fn lemma_accepted_executes(state: CpuState, mnemonic: Mnemonic, mode: AddressingMode)
    requires
        accepts(mnemonic, mode),
    ensures
        state.execute(mnemonic, mode) is Some,
{
    reveal(CpuState::execute);
}

/// A run that stops at some turn has a first turn at which it stops.
pub proof fn lemma_first_stop(state: CpuState, n: nat)
    requires
        state.after(n).stops(),
    ensures
        exists|m: nat| m <= n && state.halts_after(m),
    decreases n,
{
    if exists|k: nat| k < n && state.after(k).stops() {
        let k = choose|k: nat| k < n && state.after(k).stops();
        lemma_first_stop(state, k);
        let m = choose|m: nat| m <= k && state.halts_after(m);
        assert(m <= n && state.halts_after(m));
    } else {
        assert(state.halts_after(n));
    }
}

/// The turn at which a run ends is unique, so a run that ends at turn `n`
/// has length `n`.
pub proof fn lemma_run_length(state: CpuState, n: nat)
    requires
        state.halts_after(n),
    ensures
        state.run_length() == n,
        state.halts(),
{
    let m = state.run_length();
    assert(state.halts_after(m));
    if m < n {
        assert(!state.after(m).stops());
    } else if n < m {
        assert(!state.after(n).stops());
    }
}

/// Before the turn at which a run ends, a turn that does not stop leads
/// to the next one.
pub proof fn lemma_turn_goes_on(state: CpuState, total: nat, done: nat)
    requires
        state.halts_after(total),
        done <= total,
        !state.after(done).stops(),
    ensures
        done < total,
        state.after(done + 1) == state.after(done).step(),
{
}

/// No turn stops before the one at which the run ends.
pub proof fn lemma_turn_stops(state: CpuState, total: nat, done: nat)
    requires
        state.halts_after(total),
        done <= total,
        state.after(done).stops(),
    ensures
        done == total,
{
}

/// A run that halts ends at the turn that its length names.
pub proof fn lemma_halts(state: CpuState)
    requires
        state.halts(),
    ensures
        state.halts_after(state.run_length()),
{
    let n = choose|n: nat| #[trigger] state.after(n).stops();
    lemma_first_stop(state, n);
}

} // verus!
