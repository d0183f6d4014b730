//! The execution engine: registers, memory, call stack, timers, key latch
//! and framebuffer, with the interpreter and the scheduler that drive them.

use crate::display::Display;
use crate::fault::Fault;
use crate::instruction::{decode, decode_spec, Instruction};
use crate::keypad::{key_code, Key};
use crate::model::{
    advance, apply, draws_random, elapsed, execute_spec, fault_of, fetch, initial_state,
    instruction_due, is_execution, is_step, load_program, render_frame, sample_input,
    set_register, sprite_at, timer_value, State, StepReport, INPUT_PERIOD, INSTRUCTION_PERIOD,
    MAX_PROGRAM_SIZE, MILLIS_PER_TICK, NANOS_PER_MILLI, PROGRAM_START, RENDER_PERIOD,
};
use crate::random::random_byte;
use rand::rngs::ThreadRng;
use vstd::prelude::*;
use vstd::slice::slice_subrange;

verus! {

/// The machine.
#[derive(Debug)]
pub struct Cpu {
    memory: [u8; 4096],
    display: Display,
    stack: [u16; 16],
    sp: usize,
    v: [u8; 16],
    i: u16,
    pc: u16,
    delay: u8,
    sound: u8,
    rng: ThreadRng,
    mapped_key: Option<u8>,
    last_instruction: u64,
    last_render: u64,
    last_input: u64,
    last_delay: u64,
}

impl Cpu {
    /// The state of the machine.
    pub closed spec fn view(&self) -> State {
        State {
            memory: self.memory@,
            pixels: self.display@,
            frame: self.display.frame(),
            stack: self.stack@.take(self.sp as int),
            v: self.v@,
            i: self.i,
            pc: self.pc,
            delay: self.delay,
            delay_origin: self.last_delay,
            sound: self.sound,
            key: self.mapped_key,
            last_instruction: self.last_instruction,
            last_render: self.last_render,
            last_input: self.last_input,
        }
    }

    /// What the representation keeps beyond the state's own
    /// well-formedness.
    pub closed spec fn inv(&self) -> bool {
        &&& self.sp <= 16
        &&& self.display.wf()
    }

    /// Well-formedness of the machine.
    pub open spec fn wf(&self) -> bool {
        &&& self.inv()
        &&& self@.wf()
    }

    /// A machine created at instant `now`: the glyph table in memory, the
    /// program counter at `PROGRAM_START`, everything else zero.
    pub fn new(now: u64) -> (cpu: Cpu)
        ensures
            cpu.wf(),
            cpu@ == initial_state(now),
    {
        let mut memory: [u8; 4096] = [0; 4096];
        let font: [u8; 80] = [
            0xF0, 0x90, 0x90, 0x90, 0xF0,
            0x20, 0x60, 0x20, 0x20, 0x70,
            0xF0, 0x10, 0xF0, 0x80, 0xF0,
            0xF0, 0x10, 0xF0, 0x10, 0xF0,
            0x90, 0x90, 0xF0, 0x10, 0x10,
            0xF0, 0x80, 0xF0, 0x10, 0xF0,
            0xF0, 0x80, 0xF0, 0x90, 0xF0,
            0xF0, 0x10, 0x20, 0x40, 0x40,
            0xF0, 0x90, 0xF0, 0x90, 0xF0,
            0xF0, 0x90, 0xF0, 0x10, 0xF0,
            0xF0, 0x90, 0xF0, 0x90, 0x90,
            0xE0, 0x90, 0xE0, 0x90, 0xE0,
            0xF0, 0x80, 0x80, 0x80, 0xF0,
            0xE0, 0x90, 0x90, 0x90, 0xE0,
            0xF0, 0x80, 0xF0, 0x80, 0xF0,
            0xF0, 0x80, 0xF0, 0x80, 0x80,
        ];
        assert(font@ =~= crate::model::font());
        let mut address: usize = 0;
        while address < 80
            invariant
                address <= 80,
                font@ == crate::model::font(),
                forall|a: int| 0 <= a < address ==> memory[a] == font[a],
                forall|a: int| address <= a < 4096 ==> memory[a] == 0,
            decreases 80 - address,
        {
            memory[address] = font[address];
            address += 1;
        }
        let cpu = Cpu {
            memory,
            display: Display::new(),
            stack: [0; 16],
            sp: 0,
            v: [0; 16],
            i: 0,
            pc: PROGRAM_START,
            delay: 0,
            sound: 0,
            rng: rand::thread_rng(),
            mapped_key: None,
            last_instruction: now,
            last_render: now,
            last_input: now,
            last_delay: now,
        };
        assert(cpu@ =~= initial_state(now));
        cpu
    }

    /// Executes one decoded instruction as the instruction at the program
    /// counter, at instant `now`, with `random` as the byte drawn for it.
    /// On a fault the machine is left as it was.
    pub fn execute(&mut self, instruction: Instruction, random: u8, now: u64) -> (result: Result<
        (),
        Fault,
    >)
        requires
            old(self).wf(),
            instruction.wf(),
        ensures
            final(self).wf(),
            match execute_spec(old(self)@, instruction, random, now) {
                Ok(next) => result == Ok::<(), Fault>(()) && final(self)@ == next,
                Err(fault) => result == Err::<(), Fault>(fault) && final(self)@ == old(self)@,
            },
    {
        if self.pc > 0xFFE {
            return Err(Fault::OutOfBounds);
        }
        let origin = self.pc;
        let previous = self.last_instruction;
        self.pc = origin + 2;
        self.last_instruction = now;
        assert(self@ =~= advance(old(self)@, now));
        let result = match instruction {
            Instruction::Return
            | Instruction::Jump { .. }
            | Instruction::Call { .. }
            | Instruction::JumpOffset { .. } => self.apply_jump(instruction),
            Instruction::SkipIfEqual { .. }
            | Instruction::SkipIfNotEqual { .. }
            | Instruction::SkipIfRegistersEqual { .. }
            | Instruction::SkipIfRegistersDiffer { .. }
            | Instruction::SkipIfKey { .. }
            | Instruction::SkipIfNotKey { .. } => self.apply_skip(instruction),
            Instruction::Load { .. }
            | Instruction::AddByte { .. }
            | Instruction::Move { .. }
            | Instruction::Or { .. }
            | Instruction::And { .. }
            | Instruction::Xor { .. }
            | Instruction::Random { .. } => self.apply_assignment(instruction, random),
            Instruction::Add { .. }
            | Instruction::Sub { .. }
            | Instruction::SubFrom { .. }
            | Instruction::ShiftRight { .. }
            | Instruction::ShiftLeft { .. } => self.apply_flagged(instruction),
            Instruction::ClearScreen | Instruction::Draw { .. } => self.apply_graphics(instruction),
            Instruction::ReadDelay { .. }
            | Instruction::WaitKey { .. }
            | Instruction::SetDelay { .. }
            | Instruction::SetSound { .. } => self.apply_device(instruction, now),
            Instruction::LoadAddress { .. }
            | Instruction::AddAddress { .. }
            | Instruction::Glyph { .. } => self.apply_address(instruction),
            Instruction::StoreDecimal { .. }
            | Instruction::StoreRegisters { .. }
            | Instruction::LoadRegisters { .. } => self.apply_transfer(instruction),
            Instruction::Unrecognized { .. } => Ok(()),
        };
        if result.is_err() {
            self.pc = origin;
            self.last_instruction = previous;
            assert(self@ =~= old(self)@);
        }
        result
    }

    /// Jumps, calls and returns. Neither the drawn byte nor the instant
    /// matters to them.
    fn apply_jump(&mut self, instruction: Instruction) -> (result: Result<(), Fault>)
        requires
            old(self).wf(),
            instruction.wf(),
            instruction is Return || instruction is Jump || instruction is Call
                || instruction is JumpOffset,
        ensures
            final(self).wf(),
            match apply(old(self)@, instruction, 0, 0) {
                Ok(next) => result == Ok::<(), Fault>(()) && final(self)@ == next,
                Err(fault) => result == Err::<(), Fault>(fault) && final(self)@ == old(self)@,
            },
    {
        match instruction {
            Instruction::Return => {
                if self.sp == 0 {
                    return Err(Fault::StackUnderflow);
                }
                self.sp -= 1;
                self.pc = self.stack[self.sp];
                assert(self@.stack =~= old(self)@.stack.drop_last());
            },
            Instruction::Jump { addr } => {
                self.pc = addr;
            },
            Instruction::Call { addr } => {
                if self.sp >= 16 {
                    return Err(Fault::StackOverflow);
                }
                self.stack[self.sp] = self.pc;
                self.sp += 1;
                self.pc = addr;
                assert(self@.stack =~= old(self)@.stack.push(old(self)@.pc));
            },
            Instruction::JumpOffset { addr } => {
                self.pc = addr + self.v[0] as u16;
            },
            _ => {},
        }
        Ok(())
    }

    /// Conditional skips of the next instruction. Neither the drawn byte
    /// nor the instant matters to them.
    fn apply_skip(&mut self, instruction: Instruction) -> (result: Result<(), Fault>)
        requires
            old(self).wf(),
            instruction.wf(),
            old(self).pc <= 0x1000,
            instruction is SkipIfEqual || instruction is SkipIfNotEqual
                || instruction is SkipIfRegistersEqual || instruction is SkipIfRegistersDiffer
                || instruction is SkipIfKey || instruction is SkipIfNotKey,
        ensures
            final(self).wf(),
            result == Ok::<(), Fault>(()),
            apply(old(self)@, instruction, 0, 0) == Ok::<State, Fault>(final(self)@),
    {
        let skip = match instruction {
            Instruction::SkipIfEqual { x, byte } => self.v[x as usize] == byte,
            Instruction::SkipIfNotEqual { x, byte } => self.v[x as usize] != byte,
            Instruction::SkipIfRegistersEqual { x, y } => self.v[x as usize] == self.v[y as usize],
            Instruction::SkipIfRegistersDiffer { x, y } => self.v[x as usize] != self.v[y as usize],
            Instruction::SkipIfKey { x } => match self.mapped_key {
                Some(code) => code == self.v[x as usize],
                None => false,
            },
            Instruction::SkipIfNotKey { x } => match self.mapped_key {
                Some(code) => code != self.v[x as usize],
                None => true,
            },
            _ => false,
        };
        if skip {
            self.pc += 2;
        }
        Ok(())
    }

    /// Assignments to one register that leave the flag register alone.
    /// The instant does not matter to them.
    fn apply_assignment(&mut self, instruction: Instruction, random: u8) -> (result: Result<
        (),
        Fault,
    >)
        requires
            old(self).wf(),
            instruction.wf(),
            instruction is Load || instruction is AddByte || instruction is Move
                || instruction is Or || instruction is And || instruction is Xor
                || instruction is Random,
        ensures
            final(self).wf(),
            result == Ok::<(), Fault>(()),
            apply(old(self)@, instruction, random, 0) == Ok::<State, Fault>(final(self)@),
    {
        match instruction {
            Instruction::Load { x, byte } => {
                self.v[x as usize] = byte;
            },
            Instruction::AddByte { x, byte } => {
                self.v[x as usize] = self.v[x as usize].wrapping_add(byte);
            },
            Instruction::Move { x, y } => {
                self.v[x as usize] = self.v[y as usize];
            },
            Instruction::Or { x, y } => {
                self.v[x as usize] = self.v[x as usize] | self.v[y as usize];
            },
            Instruction::And { x, y } => {
                self.v[x as usize] = self.v[x as usize] & self.v[y as usize];
            },
            Instruction::Xor { x, y } => {
                self.v[x as usize] = self.v[x as usize] ^ self.v[y as usize];
            },
            Instruction::Random { x, byte } => {
                self.v[x as usize] = random & byte;
            },
            _ => {},
        }
        assert(self@ =~= apply(old(self)@, instruction, random, 0)->Ok_0);
        Ok(())
    }

    /// Sets register `x` to `value`.
    fn write_register(&mut self, x: u8, value: u8)
        requires
            old(self).wf(),
            x < 16,
        ensures
            final(self).wf(),
            final(self)@ == set_register(old(self)@, x, value),
    {
        self.v[x as usize] = value;
        assert(self@ =~= set_register(old(self)@, x, value));
    }

    /// `Vx := Vx + Vy` with the flag register set on carry.
    fn add_registers(&mut self, x: u8, y: u8)
        requires
            old(self).wf(),
            x < 16,
            y < 16,
        ensures
            final(self).wf(),
            apply(old(self)@, Instruction::Add { x, y }, 0, 0) == Ok::<State, Fault>(final(self)@),
    {
        let vx = self.v[x as usize];
        let vy = self.v[y as usize];
        let carry: u8 = if vx as u16 + vy as u16 > 0xFF {
            1
        } else {
            0
        };
        let sum = vx.wrapping_add(vy);
        assert(sum == (vx + vy) % 256);
        self.write_register(0xF, carry);
        self.write_register(x, sum);
    }

    /// `Vx := a - b` with the flag register set when there is no borrow,
    /// where `a` and `b` are `Vx` and `Vy`, or `Vy` and `Vx` if `reversed`.
    fn subtract_registers(&mut self, x: u8, y: u8, reversed: bool)
        requires
            old(self).wf(),
            x < 16,
            y < 16,
        ensures
            final(self).wf(),
            apply(
                old(self)@,
                if reversed {
                    Instruction::SubFrom { x, y }
                } else {
                    Instruction::Sub { x, y }
                },
                0,
                0,
            ) == Ok::<State, Fault>(final(self)@),
    {
        let a = if reversed {
            self.v[y as usize]
        } else {
            self.v[x as usize]
        };
        let b = if reversed {
            self.v[x as usize]
        } else {
            self.v[y as usize]
        };
        let no_borrow: u8 = if a >= b {
            1
        } else {
            0
        };
        let difference = a.wrapping_sub(b);
        assert(difference == (a - b) % 256);
        self.write_register(0xF, no_borrow);
        self.write_register(x, difference);
    }

    /// Flag register := lowest bit of `Vx`, then `Vx := Vx >> 1`.
    fn shift_right(&mut self, x: u8)
        requires
            old(self).wf(),
            x < 16,
        ensures
            final(self).wf(),
            apply(old(self)@, Instruction::ShiftRight { x }, 0, 0) == Ok::<State, Fault>(
                final(self)@,
            ),
    {
        let vx = self.v[x as usize];
        assert(vx & 0x1 == vx % 2) by (bit_vector);
        self.write_register(0xF, vx & 0x1);
        let flagged = self.v[x as usize];
        assert(flagged >> 1 == flagged / 2) by (bit_vector);
        self.write_register(x, flagged >> 1);
    }

    /// Flag register := highest bit of `Vx`, then `Vx := Vx << 1`.
    fn shift_left(&mut self, x: u8)
        requires
            old(self).wf(),
            x < 16,
        ensures
            final(self).wf(),
            apply(old(self)@, Instruction::ShiftLeft { x }, 0, 0) == Ok::<State, Fault>(
                final(self)@,
            ),
    {
        let vx = self.v[x as usize];
        assert((vx & 0x80) >> 7 == vx / 128) by (bit_vector);
        self.write_register(0xF, (vx & 0x80) >> 7);
        let flagged = self.v[x as usize];
        assert(flagged << 1 == (flagged * 2) % 256) by (bit_vector);
        self.write_register(x, flagged << 1);
    }

    /// Arithmetic and shifts that set the flag register. Neither the drawn
    /// byte nor the instant matters to them.
    fn apply_flagged(&mut self, instruction: Instruction) -> (result: Result<(), Fault>)
        requires
            old(self).wf(),
            instruction.wf(),
            instruction is Add || instruction is Sub || instruction is SubFrom
                || instruction is ShiftRight || instruction is ShiftLeft,
        ensures
            final(self).wf(),
            result == Ok::<(), Fault>(()),
            apply(old(self)@, instruction, 0, 0) == Ok::<State, Fault>(final(self)@),
    {
        match instruction {
            Instruction::Add { x, y } => self.add_registers(x, y),
            Instruction::Sub { x, y } => self.subtract_registers(x, y, false),
            Instruction::SubFrom { x, y } => self.subtract_registers(x, y, true),
            Instruction::ShiftRight { x } => self.shift_right(x),
            Instruction::ShiftLeft { x } => self.shift_left(x),
            _ => {},
        }
        Ok(())
    }

    /// Clearing the screen and drawing a sprite. Neither the drawn byte nor
    /// the instant matters to them.
    fn apply_graphics(&mut self, instruction: Instruction) -> (result: Result<(), Fault>)
        requires
            old(self).wf(),
            instruction.wf(),
            instruction is ClearScreen || instruction is Draw,
        ensures
            final(self).wf(),
            match apply(old(self)@, instruction, 0, 0) {
                Ok(next) => result == Ok::<(), Fault>(()) && final(self)@ == next,
                Err(fault) => result == Err::<(), Fault>(fault) && final(self)@ == old(self)@,
            },
    {
        match instruction {
            Instruction::ClearScreen => {
                self.display.clear();
            },
            Instruction::Draw { x, y, rows } => {
                let start = self.i as usize;
                let count = rows as usize;
                if rows > 0 && start + count > 4096 {
                    return Err(Fault::OutOfBounds);
                }
                let vx = self.v[x as usize];
                let vy = self.v[y as usize];
                let sprite = if rows == 0 {
                    slice_subrange(self.memory.as_slice(), 0, 0)
                } else {
                    slice_subrange(self.memory.as_slice(), start, start + count)
                };
                assert(sprite@ =~= sprite_at(self.memory@, self.i, rows));
                let collision = self.display.draw(vx, vy, sprite);
                self.v[0xF] = if collision {
                    1
                } else {
                    0
                };
            },
            _ => {},
        }
        assert(self@ =~= apply(old(self)@, instruction, 0, 0)->Ok_0);
        Ok(())
    }

    /// The delay timer, the sound timer and the blocking key read. The
    /// drawn byte does not matter to them.
    fn apply_device(&mut self, instruction: Instruction, now: u64) -> (result: Result<(), Fault>)
        requires
            old(self).wf(),
            instruction.wf(),
            old(self).pc >= 2,
            instruction is ReadDelay || instruction is WaitKey || instruction is SetDelay
                || instruction is SetSound,
        ensures
            final(self).wf(),
            result == Ok::<(), Fault>(()),
            apply(old(self)@, instruction, 0, now) == Ok::<State, Fault>(final(self)@),
    {
        match instruction {
            Instruction::ReadDelay { x } => {
                self.v[x as usize] = self.get_delay(now);
            },
            Instruction::WaitKey { x } => {
                match self.mapped_key {
                    Some(code) => {
                        self.v[x as usize] = code;
                    },
                    None => {
                        self.pc -= 2;
                    },
                }
            },
            Instruction::SetDelay { x } => {
                let vx = self.v[x as usize];
                self.set_delay(vx, now);
            },
            Instruction::SetSound { x } => {
                self.sound = self.v[x as usize];
            },
            _ => {},
        }
        assert(self@ =~= apply(old(self)@, instruction, 0, now)->Ok_0);
        Ok(())
    }

    /// Assignments to the address register. Neither the drawn byte nor the
    /// instant matters to them.
    fn apply_address(&mut self, instruction: Instruction) -> (result: Result<(), Fault>)
        requires
            old(self).wf(),
            instruction.wf(),
            instruction is LoadAddress || instruction is AddAddress || instruction is Glyph,
        ensures
            final(self).wf(),
            result == Ok::<(), Fault>(()),
            apply(old(self)@, instruction, 0, 0) == Ok::<State, Fault>(final(self)@),
    {
        match instruction {
            Instruction::LoadAddress { addr } => {
                self.i = addr;
            },
            Instruction::AddAddress { x } => {
                self.i = self.i.wrapping_add(self.v[x as usize] as u16);
            },
            Instruction::Glyph { x } => {
                self.i = self.v[x as usize] as u16 * 5;
            },
            _ => {},
        }
        assert(self@ =~= apply(old(self)@, instruction, 0, 0)->Ok_0);
        Ok(())
    }

    /// Writes the three decimal digits of `value` at the address register.
    fn store_decimal(&mut self, value: u8)
        requires
            old(self).wf(),
            old(self).i + 2 <= 0xFFF,
        ensures
            final(self).wf(),
            final(self)@ == (State {
                memory: old(self)@.memory.update(old(self)@.i as int, value / 100).update(
                    old(self)@.i + 1,
                    (value / 10) % 10,
                ).update(old(self)@.i + 2, value % 10),
                ..old(self)@
            }),
    {
        let at = self.i as usize;
        self.memory[at] = value / 100;
        self.memory[at + 1] = (value % 100) / 10;
        self.memory[at + 2] = value % 10;
        assert(self@.memory =~= old(self)@.memory.update(at as int, value / 100).update(
            at + 1,
            (value / 10) % 10,
        ).update(at + 2, value % 10));
    }

    /// Copies registers `V0..=Vlast` to memory at the address register.
    fn store_registers(&mut self, last: u8)
        requires
            old(self).wf(),
            last < 16,
            old(self).i + last <= 0xFFF,
        ensures
            final(self).wf(),
            final(self)@ == (State {
                memory: Seq::new(
                    4096,
                    |a: int|
                        if old(self)@.i <= a <= old(self)@.i + last {
                            old(self)@.v[a - old(self)@.i]
                        } else {
                            old(self)@.memory[a]
                        },
                ),
                ..old(self)@
            }),
    {
        let at = self.i as usize;
        let mut register: usize = 0;
        while register <= last as usize
            invariant
                register <= last + 1,
                last < 16,
                at == old(self).i,
                at + last <= 0xFFF,
                forall|a: int|
                    0 <= a < 4096 ==> self.memory[a] == if at <= a < at + register {
                        old(self).v[a - at]
                    } else {
                        old(self).memory[a]
                    },
                *self == (Cpu { memory: self.memory, ..*old(self) }),
            decreases last + 1 - register,
        {
            self.memory[at + register] = self.v[register];
            register += 1;
        }
        assert(self@.memory =~= Seq::new(
            4096,
            |a: int|
                if old(self)@.i <= a <= old(self)@.i + last {
                    old(self)@.v[a - old(self)@.i]
                } else {
                    old(self)@.memory[a]
                },
        ));
    }

    /// Copies memory at the address register to registers `V0..=Vlast`.
    fn load_registers(&mut self, last: u8)
        requires
            old(self).wf(),
            last < 16,
            old(self).i + last <= 0xFFF,
        ensures
            final(self).wf(),
            final(self)@ == (State {
                v: Seq::new(
                    16,
                    |r: int|
                        if r <= last {
                            old(self)@.memory[old(self)@.i + r]
                        } else {
                            old(self)@.v[r]
                        },
                ),
                ..old(self)@
            }),
    {
        let at = self.i as usize;
        let mut register: usize = 0;
        while register <= last as usize
            invariant
                register <= last + 1,
                last < 16,
                at == old(self).i,
                at + last <= 0xFFF,
                forall|r: int|
                    0 <= r < 16 ==> self.v[r] == if r < register {
                        old(self).memory[at + r]
                    } else {
                        old(self).v[r]
                    },
                *self == (Cpu { v: self.v, ..*old(self) }),
            decreases last + 1 - register,
        {
            self.v[register] = self.memory[at + register];
            register += 1;
        }
        assert(self@.v =~= Seq::new(
            16,
            |r: int|
                if r <= last {
                    old(self)@.memory[old(self)@.i + r]
                } else {
                    old(self)@.v[r]
                },
        ));
    }

    /// Transfers between registers and memory at the address register.
    /// Neither the drawn byte nor the instant matters to them.
    fn apply_transfer(&mut self, instruction: Instruction) -> (result: Result<(), Fault>)
        requires
            old(self).wf(),
            instruction.wf(),
            instruction is StoreDecimal || instruction is StoreRegisters
                || instruction is LoadRegisters,
        ensures
            final(self).wf(),
            match apply(old(self)@, instruction, 0, 0) {
                Ok(next) => result == Ok::<(), Fault>(()) && final(self)@ == next,
                Err(fault) => result == Err::<(), Fault>(fault) && final(self)@ == old(self)@,
            },
    {
        match instruction {
            Instruction::StoreDecimal { x } => {
                if self.i > 0xFFF - 2 {
                    return Err(Fault::OutOfBounds);
                }
                let vx = self.v[x as usize];
                self.store_decimal(vx);
            },
            Instruction::StoreRegisters { x } => {
                if self.i as usize + x as usize > 0xFFF {
                    return Err(Fault::OutOfBounds);
                }
                self.store_registers(x);
            },
            Instruction::LoadRegisters { x } => {
                if self.i as usize + x as usize > 0xFFF {
                    return Err(Fault::OutOfBounds);
                }
                self.load_registers(x);
            },
            _ => {},
        }
        Ok(())
    }

    /// Decodes an instruction word and executes it as the instruction at
    /// the program counter, at instant `now`. A random byte is drawn if the
    /// instruction asks for one. The result is the instruction that was
    /// executed, `Unrecognized` for a word that encodes none: such a word
    /// only moves the program counter on.
    pub fn interpret(&mut self, opcode: u16, now: u64) -> (result: Result<Instruction, Fault>)
        requires
            old(self).wf(),
        ensures
            final(self).wf(),
            result matches Ok(instruction) ==> instruction == decode_spec(opcode),
            exists|random: u8|
                is_execution(
                    old(self)@,
                    final(self)@,
                    fault_of(result),
                    decode_spec(opcode),
                    random,
                    now,
                ),
            !(decode_spec(opcode) is Random) ==> is_execution(
                old(self)@,
                final(self)@,
                fault_of(result),
                decode_spec(opcode),
                0,
                now,
            ),
    {
        let instruction = decode(opcode);
        let random = match instruction {
            Instruction::Random { .. } => random_byte(&mut self.rng),
            _ => 0,
        };
        assert(self@ == old(self)@);
        let outcome = self.execute(instruction, random, now);
        assert(is_execution(old(self)@, self@, fault_of(outcome), instruction, random, now));
        match outcome {
            Ok(()) => Ok(instruction),
            Err(fault) => Err(fault),
        }
    }

    /// Copies a program image into memory at `PROGRAM_START`. An image of
    /// more than `MAX_PROGRAM_SIZE` bytes is refused and nothing is written.
    pub fn load_rom(&mut self, rom: &[u8]) -> (result: Result<(), Fault>)
        requires
            old(self).wf(),
        ensures
            final(self).wf(),
            rom@.len() <= MAX_PROGRAM_SIZE ==> result == Ok::<(), Fault>(()) && final(self)@ == (State {
                memory: load_program(old(self)@.memory, rom@),
                ..old(self)@
            }),
            rom@.len() > MAX_PROGRAM_SIZE ==> result == Err::<(), Fault>(Fault::ProgramTooLarge)
                && final(self)@ == old(self)@,
    {
        let size = rom.len();
        if size > MAX_PROGRAM_SIZE {
            return Err(Fault::ProgramTooLarge);
        }
        let mut address: usize = 0;
        while address < size
            invariant
                address <= size,
                size == rom@.len(),
                size <= MAX_PROGRAM_SIZE,
                forall|a: int|
                    0 <= a < 4096 ==> self.memory[a] == if 0x200 <= a < 0x200 + address {
                        rom@[a - 0x200]
                    } else {
                        old(self).memory[a]
                    },
                *self == (Cpu { memory: self.memory, ..*old(self) }),
            decreases size - address,
        {
            self.memory[address + PROGRAM_START as usize] = rom[address];
            address += 1;
        }
        assert(self@.memory =~= load_program(old(self)@.memory, rom@));
        Ok(())
    }

    /// Whether the run loop goes on: the display window is open and the
    /// quit key is not held down.
    pub fn is_running(&self, window_open: bool, quit_key_down: bool) -> (running: bool)
        ensures
            running == (window_open && !quit_key_down),
    {
        window_open && !quit_key_down
    }

    /// The logical key of a physical key, if it has one.
    pub fn get_mapped_key(key: &Key) -> (code: Option<u8>)
        ensures
            code == key_code(*key),
    {
        match key {
            Key::Key1 => Some(0x1),
            Key::Key2 => Some(0x2),
            Key::Key3 => Some(0x3),
            Key::Key4 => Some(0xC),
            Key::Q => Some(0x4),
            Key::W => Some(0x5),
            Key::E => Some(0x6),
            Key::R => Some(0xD),
            Key::A => Some(0x7),
            Key::S => Some(0x8),
            Key::D => Some(0x9),
            Key::F => Some(0xE),
            Key::Z => Some(0xA),
            Key::X => Some(0x0),
            Key::C => Some(0xB),
            Key::V => Some(0xF),
            _ => None,
        }
    }

    /// Offers the pressed keys to the key latch at instant `now`.
    fn sample_keys(&mut self, keys: &[Key], now: u64)
        requires
            old(self).wf(),
        ensures
            final(self).wf(),
            final(self)@ == sample_input(old(self)@, keys@, now),
    {
        let mut pressed: Option<u8> = None;
        if keys.len() > 0 {
            pressed = Cpu::get_mapped_key(&keys[0]);
        }
        if pressed.is_some() || nanos_since(self.last_input, now) >= INPUT_PERIOD {
            self.mapped_key = pressed;
            self.last_input = now;
        }
        assert(self@ =~= sample_input(old(self)@, keys@, now));
    }

    /// Reads the instruction word at the program counter.
    fn fetch_opcode(&self) -> (opcode: u16)
        requires
            self.wf(),
            self.pc <= 0xFFE,
        ensures
            opcode == fetch(self@),
    {
        let high = self.memory[self.pc as usize] as u16;
        let low = self.memory[self.pc as usize + 1] as u16;
        assert((high << 8) | low == high * 256 + low) by (bit_vector)
            requires
                high < 256,
                low < 256,
        ;
        (high << 8) | low
    }

    /// Renders the frame at instant `now`.
    fn refresh(&mut self, now: u64)
        requires
            old(self).wf(),
        ensures
            final(self).wf(),
            final(self)@ == render_frame(old(self)@, now),
    {
        self.display.render();
        self.last_render = now;
        assert(self@ =~= render_frame(old(self)@, now));
    }

    /// One step of the scheduler at instant `now`, given the physical keys
    /// that are pressed: refreshes the key latch, executes the instruction
    /// at the program counter if one is due, and renders a frame if one is
    /// due. A fault ends the step after the latch was refreshed.
    pub fn step(&mut self, keys: &[Key], now: u64) -> (report: Result<StepReport, Fault>)
        requires
            old(self).wf(),
        ensures
            final(self).wf(),
            exists|random: u8| is_step(old(self)@, final(self)@, report, keys@, random, now),
            !draws_random(old(self)@, keys@, now) ==> is_step(
                old(self)@,
                final(self)@,
                report,
                keys@,
                0,
                now,
            ),
    {
        self.sample_keys(keys, now);
        let ghost sampled = self@;
        let mut executed: Option<Instruction> = None;
        if nanos_since(self.last_instruction, now) > INSTRUCTION_PERIOD {
            if self.pc > 0xFFE {
                assert(is_step(old(self)@, self@, Err(Fault::OutOfBounds), keys@, 0, now));
                return Err(Fault::OutOfBounds);
            }
            let opcode = self.fetch_opcode();
            match self.interpret(opcode, now) {
                Ok(instruction) => {
                    executed = Some(instruction);
                },
                Err(fault) => {
                    let ghost random = choose|random: u8|
                        is_execution(
                            sampled,
                            self@,
                            Some(fault),
                            decode_spec(opcode),
                            random,
                            now,
                        );
                    assert(is_step(old(self)@, self@, Err(fault), keys@, random, now));
                    return Err(fault);
                },
            }
        }
        let ghost ran = self@;
        let ghost random = if instruction_due(sampled, now) {
            choose|random: u8|
                is_execution(sampled, ran, None, decode_spec(fetch(sampled)), random, now)
        } else {
            0u8
        };
        let mut rendered = false;
        if nanos_since(self.last_render, now) > RENDER_PERIOD {
            self.refresh(now);
            rendered = true;
        }
        let report = StepReport { executed, rendered };
        assert(is_step(old(self)@, self@, Ok(report), keys@, random, now));
        Ok(report)
    }

    /// The program counter.
    pub fn program_counter(&self) -> (pc: u16)
        ensures
            pc == self@.pc,
    {
        self.pc
    }

    /// The address register.
    pub fn address_register(&self) -> (i: u16)
        ensures
            i == self@.i,
    {
        self.i
    }

    /// The sixteen general registers.
    pub fn registers(&self) -> (v: &[u8])
        ensures
            v@ == self@.v,
    {
        self.v.as_slice()
    }

    /// The 4096 bytes of memory.
    pub fn memory(&self) -> (memory: &[u8])
        ensures
            memory@ == self@.memory,
    {
        self.memory.as_slice()
    }

    /// The return addresses on the call stack, the most recent last.
    pub fn stack(&self) -> (stack: &[u16])
        requires
            self.wf(),
        ensures
            stack@ == self@.stack,
    {
        let frames = slice_subrange(self.stack.as_slice(), 0, self.sp);
        assert(frames@ =~= self@.stack);
        frames
    }

    /// The sound timer.
    pub fn sound_timer(&self) -> (sound: u8)
        ensures
            sound == self@.sound,
    {
        self.sound
    }

    /// The latched logical key.
    pub fn latched_key(&self) -> (key: Option<u8>)
        ensures
            key == self@.key,
    {
        self.mapped_key
    }

    /// The framebuffer.
    pub fn display(&self) -> (display: &Display)
        requires
            self.wf(),
        ensures
            display.wf(),
            display@ == self@.pixels,
            display.frame() == self@.frame,
    {
        &self.display
    }

    /// Sets the delay timer to `delay` at instant `now`.
    pub fn set_delay(&mut self, delay: u8, now: u64)
        requires
            old(self).wf(),
        ensures
            final(self).wf(),
            final(self)@ == (State { delay, delay_origin: now, ..old(self)@ }),
    {
        self.delay = delay;
        self.last_delay = now;
    }

    /// The effective value of the delay timer at instant `now`.
    pub fn get_delay(&self, now: u64) -> (value: u8)
        ensures
            value == timer_value(self@.delay, self@.delay_origin, now),
    {
        let ticks = nanos_since(self.last_delay, now) / NANOS_PER_MILLI / MILLIS_PER_TICK;
        if ticks >= self.delay as u64 {
            0
        } else {
            self.delay - ticks as u8
        }
    }
}

/// Nanoseconds from `origin` to `now`; zero if `now` is the earlier one.
fn nanos_since(origin: u64, now: u64) -> (nanos: u64)
    ensures
        nanos == elapsed(origin, now),
{
    if now >= origin {
        now - origin
    } else {
        0
    }
}

} // verus!
