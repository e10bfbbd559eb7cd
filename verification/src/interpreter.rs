//! The interpreter: loading a program, resetting the processor, and the
//! fetch-decode-execute cycle.

use crate::cpu::{CpuError, Mem, StepOutcome, CPU};
use crate::laws::lemma_program_counter_advances;
use crate::model::{
    wrap_word, CpuState, MEMORY_SIZE, PROGRAM_BASE, RESET_VECTOR, STACK_RESET,
};
use crate::opcodes::{instruction, instruction_len, lookup, Mnemonic, OpCode};
use crate::semantics::{
    chain, ended_at, lemma_accepted_executes, lemma_halts, lemma_step_shortens,
    lemma_stop_fetches, lemma_turn_goes_on, lemma_turn_stops, performed, sets_program_counter,
};
use vstd::prelude::*;

verus! {

/// Room for a program from `base` to the end of the address space.
pub open spec fn fits(base: u16, len: nat) -> bool {
    base + len <= MEMORY_SIZE
}

impl CPU {
    /// Copies `program` into memory from `base` upwards and points the reset
    /// vector at `base`.
    pub fn load_at(&mut self, base: u16, program: &Vec<u8>)
        requires
            fits(base, program@.len()),
        ensures
            final(self)@ == old(self)@.load(base, program@),
    {
        let ghost before = self@;
        let start: usize = base.into();
        let mut i: usize = 0;
        while i < program.len()
            invariant
                i <= program@.len(),
                start == base,
                start + program@.len() <= MEMORY_SIZE,
                self@ == before.place(base, program@.take(i as int)),
            decreases program@.len() - i,
        {
            self.memory[start + i] = program[i];
            i += 1;
            assert(self@.memory =~= before.place(base, program@.take(i as int)).memory);
        }
        assert(program@.take(i as int) =~= program@);
        self.mem_write_u16(RESET_VECTOR, base);
    }

    /// Loads `program` at `0x0600`.
    pub fn load(&mut self, program: Vec<u8>)
        requires
            fits(PROGRAM_BASE, program@.len()),
        ensures
            final(self)@ == old(self)@.load(PROGRAM_BASE, program@),
    {
        self.load_at(PROGRAM_BASE, &program);
    }

    /// Zeroes A, X, Y and the status, puts the stack pointer at `0xFD` and
    /// takes the program counter from the reset vector.
    pub fn reset(&mut self)
        ensures
            final(self)@ == old(self)@.reset(),
    {
        self.register_a = 0;
        self.register_x = 0;
        self.register_y = 0;
        self.status = 0;
        self.stack_pointer = STACK_RESET;

        self.program_counter = self.mem_read_u16(RESET_VECTOR);
    }

    /// Moves the program counter over the operand bytes of an instruction
    /// of `len` bytes whose opcode has been fetched.
    fn skip_operand(&mut self, len: u8)
        requires
            1 <= len,
        ensures
            final(self)@ == old(self)@.advanced(old(self).program_counter, len),
    {
        let operand_len: u16 = (len - 1).into();
        self.program_counter = self.program_counter.wrapping_add(operand_len);
    }

    /// Runs the semantic routine that `opcode` selects, under its
    /// addressing mode. BRK has no routine: the cycle ends on it.
    pub fn execute(&mut self, opcode: &OpCode) -> (result: Result<(), CpuError>)
        ensures
            performed(
                old(self)@,
                old(self)@.execute(opcode.mnemonic, opcode.mode),
                result,
                final(self)@,
            ),
    {
        proof {
            reveal(CpuState::execute);
        }
        match opcode.mnemonic {
            Mnemonic::ADC => self.adc(&opcode.mode),
            Mnemonic::AND => self.and(&opcode.mode),
            Mnemonic::ASL => self.asl(&opcode.mode),
            Mnemonic::BCC => {
                self.bcc(&opcode.mode);
                Ok(())
            },
            Mnemonic::BCS => {
                self.bcs(&opcode.mode);
                Ok(())
            },
            Mnemonic::BEQ => {
                self.beq(&opcode.mode);
                Ok(())
            },
            Mnemonic::BIT => self.bit(&opcode.mode),
            Mnemonic::BMI => {
                self.bmi(&opcode.mode);
                Ok(())
            },
            Mnemonic::BNE => {
                self.bne(&opcode.mode);
                Ok(())
            },
            Mnemonic::BPL => {
                self.bpl(&opcode.mode);
                Ok(())
            },
            Mnemonic::BRK => Ok(()),
            Mnemonic::BVC => {
                self.bvc(&opcode.mode);
                Ok(())
            },
            Mnemonic::BVS => {
                self.bvs(&opcode.mode);
                Ok(())
            },
            Mnemonic::CLC => {
                self.clc(&opcode.mode);
                Ok(())
            },
            Mnemonic::CLD => {
                self.cld(&opcode.mode);
                Ok(())
            },
            Mnemonic::CLI => {
                self.cli(&opcode.mode);
                Ok(())
            },
            Mnemonic::CLV => {
                self.clv(&opcode.mode);
                Ok(())
            },
            Mnemonic::CMP => self.cmp(&opcode.mode),
            Mnemonic::CPX => self.cpx(&opcode.mode),
            Mnemonic::CPY => self.cpy(&opcode.mode),
            Mnemonic::DEC => self.dec(&opcode.mode),
            Mnemonic::DEX => {
                self.dex(&opcode.mode);
                Ok(())
            },
            Mnemonic::DEY => {
                self.dey(&opcode.mode);
                Ok(())
            },
            Mnemonic::EOR => self.eor(&opcode.mode),
            Mnemonic::INC => self.inc(&opcode.mode),
            Mnemonic::INX => {
                self.inx(&opcode.mode);
                Ok(())
            },
            Mnemonic::INY => {
                self.iny(&opcode.mode);
                Ok(())
            },
            Mnemonic::JMP => self.jmp(&opcode.mode),
            Mnemonic::JSR => self.jsr(&opcode.mode),
            Mnemonic::LDA => self.lda(&opcode.mode),
            Mnemonic::LDX => self.ldx(&opcode.mode),
            Mnemonic::LDY => self.ldy(&opcode.mode),
            Mnemonic::LSR => self.lsr(&opcode.mode),
            Mnemonic::NOP => {
                self.nop(&opcode.mode);
                Ok(())
            },
            Mnemonic::ORA => self.ora(&opcode.mode),
            Mnemonic::PHA => {
                self.pha(&opcode.mode);
                Ok(())
            },
            Mnemonic::PHP => {
                self.php(&opcode.mode);
                Ok(())
            },
            Mnemonic::PLA => {
                self.pla(&opcode.mode);
                Ok(())
            },
            Mnemonic::PLP => {
                self.plp(&opcode.mode);
                Ok(())
            },
            Mnemonic::ROL => self.rol(&opcode.mode),
            Mnemonic::ROR => self.ror(&opcode.mode),
            Mnemonic::RTI => {
                self.rti(&opcode.mode);
                Ok(())
            },
            Mnemonic::RTS => {
                self.rts(&opcode.mode);
                Ok(())
            },
            Mnemonic::SBC => self.sbc(&opcode.mode),
            Mnemonic::SEC => {
                self.sec(&opcode.mode);
                Ok(())
            },
            Mnemonic::SED => {
                self.sed(&opcode.mode);
                Ok(())
            },
            Mnemonic::SEI => {
                self.sei(&opcode.mode);
                Ok(())
            },
            Mnemonic::STA => self.sta(&opcode.mode),
            Mnemonic::STX => self.stx(&opcode.mode),
            Mnemonic::STY => self.sty(&opcode.mode),
            Mnemonic::TAX => {
                self.tax();
                Ok(())
            },
            Mnemonic::TAY => {
                self.tay();
                Ok(())
            },
            Mnemonic::TSX => {
                self.tsx();
                Ok(())
            },
            Mnemonic::TXA => {
                self.txa();
                Ok(())
            },
            Mnemonic::TXS => {
                self.txs();
                Ok(())
            },
            Mnemonic::TYA => {
                self.tya();
                Ok(())
            },
        }
    }

    /// One turn of the cycle: fetches the opcode at the program counter,
    /// looks it up, runs its routine and moves the program counter over the
    /// operand unless the routine has moved it. Fails on a byte that is no
    /// opcode; reports `Halted` on BRK.
    ///
    /// An instruction that does not set the program counter itself, as a
    /// jump, a call, a return or a taken branch does, leaves it behind its
    /// last byte.
    ///
    /// To compute what a turn does to a given state, a proof takes the
    /// entry of the opcode from `lemma_decode_encode` and reveals the
    /// dispatch, `CpuState::execute`.
    pub fn step(&mut self) -> (outcome: Result<StepOutcome, CpuError>)
        ensures
            final(self)@ == old(self)@.step(),
            outcome == old(self)@.step_outcome(),
            instruction(old(self)@.opcode()) matches Some((mnemonic, mode)) ==> (
                !sets_program_counter(old(self)@, mnemonic) ==> final(self).program_counter
                    == wrap_word(old(self).program_counter + instruction_len(mode))
            ),
    {
        proof {
            if let Some((mnemonic, mode)) = instruction(self@.opcode()) {
                if !sets_program_counter(self@, mnemonic) {
                    lemma_program_counter_advances(self@, mnemonic, mode);
                }
            }
        }
        let code = self.mem_read(self.program_counter);
        self.program_counter = self.program_counter.wrapping_add(1);
        let program_counter_state = self.program_counter;

        let opcode = match lookup(code) {
            Some(opcode) => opcode,
            None => return Err(CpuError::UnknownOpcode(code)),
        };
        if let Mnemonic::BRK = opcode.mnemonic {
            return Ok(StepOutcome::Halted);
        }
        proof {
            lemma_accepted_executes(self@, opcode.mnemonic, opcode.mode);
        }
        self.execute(&opcode)?;

        if program_counter_state == self.program_counter {
            self.skip_operand(opcode.len);
        }
        Ok(StepOutcome::Running)
    }

    /// Executes instructions until BRK is fetched, or a byte that is no
    /// opcode. Asks that the program stops: on one that does not, the loop
    /// would never end. A host that cannot show that it stops calls `step`
    /// in a loop of its own.
    pub fn run(&mut self) -> (result: Result<(), CpuError>)
        requires
            old(self)@.halts(),
        ensures
            final(self)@ == old(self)@.run(),
            result == old(self)@.run_outcome(),
    {
        let observer = |cpu: &mut CPU|
            ensures
                final(cpu)@ == old(cpu)@,
            {
            };
        self.run_with_callback(observer)
    }

    /// Executes as `run` does, and calls `callback` with the processor after
    /// each instruction that was executed, when the program counter is at
    /// the next instruction. What `callback` does to the processor, the
    /// next fetch sees.
    ///
    /// Asks that the run is finite: the program stops, `callback` can be
    /// called after each turn that it is called after, and where it can be
    /// called it does not lengthen what is left of the run. A host whose
    /// observer can keep a program running calls `step` in a loop of its
    /// own.
    ///
    /// The run ends behind the byte that stopped it. The states in which
    /// its turns began form a chain from the first state: each but the
    /// last does not stop the run, and leads to the next by one turn and
    /// one call of `callback`. Under a `callback` that leaves the processor
    /// as it finds it, the run is that of `run`.
    pub fn run_with_callback<F>(&mut self, callback: F) -> (result: Result<(), CpuError>) where
        F: FnMut(&mut CPU),

        requires
            old(self)@.halts(),
            forall|cpu: &mut CPU|
                !old(self)@.stops() && cpu@ == old(self)@.step() ==> call_requires(
                    callback,
                    (cpu,),
                ),
            forall|cpu: &mut CPU, next: &mut CPU|
                call_ensures(callback, (cpu,), ()) && !final(cpu)@.stops()
                    && next@ == final(cpu)@.step() ==> call_requires(callback, (next,)),
            forall|cpu: &mut CPU|
                cpu@.halts() && call_ensures(callback, (cpu,), ()) ==> final(cpu)@.halts()
                    && final(cpu)@.run_length() <= cpu@.run_length(),
        ensures
            ended_at(final(self)@.unfetched(), final(self)@, result),
            exists|turns: Seq<CpuState>|
                (chain(turns, old(self)@, final(self)@.unfetched()) && forall|i: int|
                    0 <= i < turns.len() - 1 ==> exists|cpu: &mut CPU|
                        cpu@ == (#[trigger] turns[i]).step() && final(cpu)@ == turns[i + 1]
                            && call_ensures(callback, (cpu,), ())),
            (forall|cpu: &mut CPU| call_ensures(callback, (cpu,), ()) ==> final(cpu)@ == cpu@)
                ==> final(self)@ == old(self)@.run() && result == old(self)@.run_outcome(),
    {
        let ghost start = self@;
        let ghost total = start.run_length();
        let ghost mut done: nat = 0;
        let ghost mut turns = seq![start];
        let mut observer = callback;
        proof {
            lemma_halts(start);
        }
        loop
            invariant
                start == old(self)@,
                total == start.run_length(),
                start.halts_after(total),
                observer == callback,
                self@.halts(),
                forall|cpu: &mut CPU|
                    !self@.stops() && cpu@ == self@.step() ==> call_requires(observer, (cpu,)),
                forall|cpu: &mut CPU, next: &mut CPU|
                    call_ensures(observer, (cpu,), ()) && !final(cpu)@.stops()
                        && next@ == final(cpu)@.step() ==> call_requires(observer, (next,)),
                forall|cpu: &mut CPU|
                    cpu@.halts() && call_ensures(observer, (cpu,), ()) ==> final(cpu)@.halts()
                        && final(cpu)@.run_length() <= cpu@.run_length(),
                (forall|cpu: &mut CPU| call_ensures(observer, (cpu,), ()) ==> final(cpu)@ == cpu@)
                    ==> done <= total && self@ == start.after(done),
                chain(turns, start, self@),
                forall|i: int|
                    0 <= i < turns.len() - 1 ==> exists|cpu: &mut CPU|
                        cpu@ == (#[trigger] turns[i]).step() && final(cpu)@ == turns[i + 1]
                            && call_ensures(observer, (cpu,), ()),
            decreases self@.run_length(),
        {
            let ghost turn = self@;
            let outcome = self.step();
            proof {
                if forall|cpu: &mut CPU|
                    call_ensures(observer, (cpu,), ()) ==> final(cpu)@ == cpu@ {
                    if turn.stops() {
                        lemma_turn_stops(start, total, done);
                    } else {
                        lemma_turn_goes_on(start, total, done);
                    }
                }
                if turn.stops() {
                    lemma_stop_fetches(turn);
                } else {
                    lemma_step_shortens(turn);
                }
                done = done + 1;
            }
            match outcome {
                Ok(StepOutcome::Running) => {
                    observer(self);
                    proof {
                        turns = turns.push(self@);
                    }
                },
                Ok(StepOutcome::Halted) => {
                    return Ok(());
                },
                Err(error) => {
                    return Err(error);
                },
            }
        }
    }

    /// Loads `program` at `0x0600`, resets the processor and runs.
    pub fn load_and_run(&mut self, program: Vec<u8>) -> (result: Result<(), CpuError>)
        requires
            fits(PROGRAM_BASE, program@.len()),
            old(self)@.load(PROGRAM_BASE, program@).reset().halts(),
        ensures
            final(self)@ == old(self)@.load(PROGRAM_BASE, program@).reset().run(),
            result == old(self)@.load(PROGRAM_BASE, program@).reset().run_outcome(),
    {
        self.load(program);
        self.reset();
        self.run()
    }
}

} // verus!
