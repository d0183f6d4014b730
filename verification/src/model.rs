//! The machine as a mathematical object: its state, and what one
//! instruction, one input sample and one scheduler step make of it.

use crate::display::{blank_pixels, draw_sprite, frame_colors, sprite_collides};
use crate::fault::Fault;
use crate::instruction::{decode_spec, Instruction};
use crate::keypad::{first_key_code, Key};
use vstd::prelude::*;

verus! {

/// Number of bytes of memory.
pub const MEMORY_SIZE: usize = 0x1000;

/// Address at which a program is loaded and at which execution starts.
pub const PROGRAM_START: u16 = 0x200;

/// Largest program image that fits between `PROGRAM_START` and the end of
/// memory.
pub const MAX_PROGRAM_SIZE: usize = 0xE00;

/// Number of return addresses that the call stack holds.
pub const STACK_DEPTH: usize = 16;

/// Number of bytes of the glyph table at the start of memory.
pub const FONT_SIZE: usize = 80;

/// Nanoseconds in a millisecond.
pub const NANOS_PER_MILLI: u64 = 1_000_000;

/// Milliseconds between two decrements of a timer: a decay of 60 per second.
pub const MILLIS_PER_TICK: u64 = 16;

/// Nanoseconds after which the key latch is refreshed even when no key is
/// pressed.
pub const INPUT_PERIOD: u64 = 200_000_000;

/// Nanoseconds that must have passed since the last instruction before the
/// next one is executed.
pub const INSTRUCTION_PERIOD: u64 = 2_000_000;

/// Nanoseconds that must have passed since the last frame before the next
/// one is rendered.
pub const RENDER_PERIOD: u64 = 10_000_000;

/// The glyph table: five bytes for each hexadecimal digit, `0` first.
pub open spec fn font() -> Seq<u8> {
    seq![
        0xF0u8, 0x90u8, 0x90u8, 0x90u8, 0xF0u8,
        0x20u8, 0x60u8, 0x20u8, 0x20u8, 0x70u8,
        0xF0u8, 0x10u8, 0xF0u8, 0x80u8, 0xF0u8,
        0xF0u8, 0x10u8, 0xF0u8, 0x10u8, 0xF0u8,
        0x90u8, 0x90u8, 0xF0u8, 0x10u8, 0x10u8,
        0xF0u8, 0x80u8, 0xF0u8, 0x10u8, 0xF0u8,
        0xF0u8, 0x80u8, 0xF0u8, 0x90u8, 0xF0u8,
        0xF0u8, 0x10u8, 0x20u8, 0x40u8, 0x40u8,
        0xF0u8, 0x90u8, 0xF0u8, 0x90u8, 0xF0u8,
        0xF0u8, 0x90u8, 0xF0u8, 0x10u8, 0xF0u8,
        0xF0u8, 0x90u8, 0xF0u8, 0x90u8, 0x90u8,
        0xE0u8, 0x90u8, 0xE0u8, 0x90u8, 0xE0u8,
        0xF0u8, 0x80u8, 0x80u8, 0x80u8, 0xF0u8,
        0xE0u8, 0x90u8, 0x90u8, 0x90u8, 0xE0u8,
        0xF0u8, 0x80u8, 0xF0u8, 0x80u8, 0xF0u8,
        0xF0u8, 0x80u8, 0xF0u8, 0x80u8, 0x80u8,
    ]
}

/// The state of the machine.
#[verifier::ext_equal]
pub struct State {
    /// The 4096 bytes of memory.
    pub memory: Seq<u8>,
    /// The pixel grid, row by row.
    pub pixels: Seq<bool>,
    /// The colour frame last rendered.
    pub frame: Seq<u32>,
    /// The return addresses on the call stack, the most recent last.
    pub stack: Seq<u16>,
    /// The sixteen general registers; the last one is the flag register.
    pub v: Seq<u8>,
    /// The address register.
    pub i: u16,
    /// The program counter.
    pub pc: u16,
    /// The value to which the delay timer was last set.
    pub delay: u8,
    /// The instant at which the delay timer was last set.
    pub delay_origin: u64,
    /// The sound timer.
    pub sound: u8,
    /// The latched logical key.
    pub key: Option<u8>,
    /// The instant of the last executed instruction.
    pub last_instruction: u64,
    /// The instant of the last rendered frame.
    pub last_render: u64,
    /// The instant of the last refresh of the key latch.
    pub last_input: u64,
}

impl State {
    /// Every part has its size, the stack holds at most sixteen addresses,
    /// and a latched key is a hexadecimal digit.
    pub open spec fn wf(self) -> bool {
        &&& self.memory.len() == 4096
        &&& self.pixels.len() == 2048
        &&& self.frame.len() == 2048
        &&& self.stack.len() <= 16
        &&& self.v.len() == 16
        &&& (self.key matches Some(code) ==> code < 16)
    }
}

/// Memory as it is before a program is loaded: the glyph table, then zeros.
pub open spec fn initial_memory() -> Seq<u8> {
    Seq::new(
        4096,
        |a: int|
            if a < 80 {
                font()[a]
            } else {
                0u8
            },
    )
}

/// The state of a machine created at instant `now`.
pub open spec fn initial_state(now: u64) -> State {
    State {
        memory: initial_memory(),
        pixels: blank_pixels(),
        frame: frame_colors(blank_pixels()),
        stack: Seq::empty(),
        v: Seq::new(16, |r: int| 0u8),
        i: 0,
        pc: PROGRAM_START,
        delay: 0,
        delay_origin: now,
        sound: 0,
        key: None,
        last_instruction: now,
        last_render: now,
        last_input: now,
    }
}

/// Memory after a program image was copied to `PROGRAM_START`.
pub open spec fn load_program(memory: Seq<u8>, rom: Seq<u8>) -> Seq<u8> {
    Seq::new(
        4096,
        |a: int|
            if 0x200 <= a < 0x200 + rom.len() {
                rom[a - 0x200]
            } else {
                memory[a]
            },
    )
}

/// Nanoseconds from `origin` to `now`; zero if `now` is the earlier one.
pub open spec fn elapsed(origin: u64, now: u64) -> int {
    if now >= origin {
        now - origin
    } else {
        0
    }
}

/// Whole milliseconds from `origin` to `now`.
pub open spec fn elapsed_millis(origin: u64, now: u64) -> int {
    elapsed(origin, now) / 1_000_000
}

/// The effective value at `now` of a timer set to `value` at `origin`: it
/// loses one for every 16 whole milliseconds, down to zero.
pub open spec fn timer_value(value: u8, origin: u64, now: u64) -> u8 {
    let ticks = elapsed_millis(origin, now) / 16;
    if ticks >= value {
        0u8
    } else {
        (value - ticks) as u8
    }
}

/// The flag register's value for a condition.
pub open spec fn flag(on: bool) -> u8 {
    if on {
        1u8
    } else {
        0u8
    }
}

/// The `rows` bytes of memory from address `i` on.
pub open spec fn sprite_at(memory: Seq<u8>, i: u16, rows: u8) -> Seq<u8> {
    Seq::new(rows as nat, |k: int| memory[i + k])
}

/// The state with the next instruction skipped if `condition` holds.
pub open spec fn skip_if(s: State, condition: bool) -> State {
    if condition {
        State { pc: (s.pc + 2) as u16, ..s }
    } else {
        s
    }
}

/// The state with register `x` set to `value`.
pub open spec fn set_register(s: State, x: u8, value: u8) -> State {
    State { v: s.v.update(x as int, value), ..s }
}

/// The state with the flag register set to `carry` and then register `x`
/// set to `value`, so that `value` prevails when `x` is the flag register.
pub open spec fn set_flag_then_register(s: State, carry: u8, x: u8, value: u8) -> State {
    State { v: s.v.update(0xF, carry).update(x as int, value), ..s }
}

/// The state with the program counter moved past the instruction that is
/// about to take effect at `now`.
pub open spec fn advance(s: State, now: u64) -> State {
    State { pc: (s.pc + 2) as u16, last_instruction: now, ..s }
}

/// The effect of an instruction on a state whose program counter was
/// already moved past it, where `random` is the byte drawn for it.
pub open spec fn apply(t: State, instruction: Instruction, random: u8, now: u64) -> Result<
    State,
    Fault,
> {
    match instruction {
        Instruction::ClearScreen => Ok(State { pixels: blank_pixels(), ..t }),
        Instruction::Return => if t.stack.len() == 0 {
            Err(Fault::StackUnderflow)
        } else {
            Ok(State { pc: t.stack.last(), stack: t.stack.drop_last(), ..t })
        },
        Instruction::Jump { addr } => Ok(State { pc: addr, ..t }),
        Instruction::Call { addr } => if t.stack.len() >= 16 {
            Err(Fault::StackOverflow)
        } else {
            Ok(State { pc: addr, stack: t.stack.push(t.pc), ..t })
        },
        Instruction::SkipIfEqual { x, byte } => Ok(skip_if(t, t.v[x as int] == byte)),
        Instruction::SkipIfNotEqual { x, byte } => Ok(skip_if(t, t.v[x as int] != byte)),
        Instruction::SkipIfRegistersEqual { x, y } => Ok(
            skip_if(t, t.v[x as int] == t.v[y as int]),
        ),
        Instruction::Load { x, byte } => Ok(set_register(t, x, byte)),
        Instruction::AddByte { x, byte } => Ok(
            set_register(t, x, ((t.v[x as int] + byte) % 256) as u8),
        ),
        Instruction::Move { x, y } => Ok(set_register(t, x, t.v[y as int])),
        Instruction::Or { x, y } => Ok(set_register(t, x, t.v[x as int] | t.v[y as int])),
        Instruction::And { x, y } => Ok(set_register(t, x, t.v[x as int] & t.v[y as int])),
        Instruction::Xor { x, y } => Ok(set_register(t, x, t.v[x as int] ^ t.v[y as int])),
        Instruction::Add { x, y } => {
            let sum = t.v[x as int] + t.v[y as int];
            Ok(set_flag_then_register(t, flag(sum >= 256), x, (sum % 256) as u8))
        },
        Instruction::Sub { x, y } => {
            let difference = t.v[x as int] - t.v[y as int];
            Ok(set_flag_then_register(t, flag(difference >= 0), x, (difference % 256) as u8))
        },
        Instruction::ShiftRight { x } => {
            let flagged = t.v.update(0xF, (t.v[x as int] % 2) as u8);
            Ok(State { v: flagged.update(x as int, (flagged[x as int] / 2) as u8), ..t })
        },
        Instruction::SubFrom { x, y } => {
            let difference = t.v[y as int] - t.v[x as int];
            Ok(set_flag_then_register(t, flag(difference >= 0), x, (difference % 256) as u8))
        },
        Instruction::ShiftLeft { x } => {
            let flagged = t.v.update(0xF, (t.v[x as int] / 128) as u8);
            Ok(
                State {
                    v: flagged.update(x as int, ((flagged[x as int] * 2) % 256) as u8),
                    ..t
                },
            )
        },
        Instruction::SkipIfRegistersDiffer { x, y } => Ok(
            skip_if(t, t.v[x as int] != t.v[y as int]),
        ),
        Instruction::LoadAddress { addr } => Ok(State { i: addr, ..t }),
        Instruction::JumpOffset { addr } => Ok(State { pc: (addr + t.v[0]) as u16, ..t }),
        Instruction::Random { x, byte } => Ok(set_register(t, x, random & byte)),
        Instruction::Draw { x, y, rows } => if rows > 0 && t.i + rows > 4096 {
            Err(Fault::OutOfBounds)
        } else {
            let sprite = sprite_at(t.memory, t.i, rows);
            let left = t.v[x as int] as int;
            let top = t.v[y as int] as int;
            Ok(
                State {
                    pixels: draw_sprite(t.pixels, left, top, sprite),
                    v: t.v.update(0xF, flag(sprite_collides(t.pixels, left, top, sprite))),
                    ..t
                },
            )
        },
        Instruction::SkipIfKey { x } => Ok(skip_if(t, t.key == Some(t.v[x as int]))),
        Instruction::SkipIfNotKey { x } => Ok(skip_if(t, t.key != Some(t.v[x as int]))),
        Instruction::ReadDelay { x } => Ok(
            set_register(t, x, timer_value(t.delay, t.delay_origin, now)),
        ),
        Instruction::WaitKey { x } => match t.key {
            Some(code) => Ok(set_register(t, x, code)),
            None => Ok(State { pc: (t.pc - 2) as u16, ..t }),
        },
        Instruction::SetDelay { x } => Ok(
            State { delay: t.v[x as int], delay_origin: now, ..t },
        ),
        Instruction::SetSound { x } => Ok(State { sound: t.v[x as int], ..t }),
        Instruction::AddAddress { x } => Ok(
            State { i: ((t.i + t.v[x as int]) % 0x10000) as u16, ..t },
        ),
        Instruction::Glyph { x } => Ok(State { i: (t.v[x as int] * 5) as u16, ..t }),
        Instruction::StoreDecimal { x } => if t.i + 2 > 0xFFF {
            Err(Fault::OutOfBounds)
        } else {
            let value = t.v[x as int];
            Ok(
                State {
                    memory: t.memory.update(t.i as int, value / 100).update(
                        t.i + 1,
                        (value / 10) % 10,
                    ).update(t.i + 2, value % 10),
                    ..t
                },
            )
        },
        Instruction::StoreRegisters { x } => if t.i + x > 0xFFF {
            Err(Fault::OutOfBounds)
        } else {
            Ok(
                State {
                    memory: Seq::new(
                        4096,
                        |a: int|
                            if t.i <= a <= t.i + x {
                                t.v[a - t.i]
                            } else {
                                t.memory[a]
                            },
                    ),
                    ..t
                },
            )
        },
        Instruction::LoadRegisters { x } => if t.i + x > 0xFFF {
            Err(Fault::OutOfBounds)
        } else {
            Ok(
                State {
                    v: Seq::new(
                        16,
                        |r: int|
                            if r <= x {
                                t.memory[t.i + r]
                            } else {
                                t.v[r]
                            },
                    ),
                    ..t
                },
            )
        },
        Instruction::Unrecognized { opcode } => Ok(t),
    }
}

/// What the instruction at the program counter makes of the state at
/// instant `now`, where `random` is the byte drawn for it. The instruction
/// must lie within memory. The program counter is moved past it before it
/// takes effect. A fault leaves the state as it was.
pub open spec fn execute_spec(s: State, instruction: Instruction, random: u8, now: u64) -> Result<
    State,
    Fault,
> {
    if s.pc > 0xFFE {
        Err(Fault::OutOfBounds)
    } else {
        apply(advance(s, now), instruction, random, now)
    }
}

/// The fault, if any, that a result carries.
pub open spec fn fault_of<T>(result: Result<T, Fault>) -> Option<Fault> {
    match result {
        Ok(_) => None,
        Err(fault) => Some(fault),
    }
}

/// Whether `post` and `fault` are what executing `instruction` at `now`
/// with the drawn byte `random` makes of `pre`.
pub open spec fn is_execution(
    pre: State,
    post: State,
    fault: Option<Fault>,
    instruction: Instruction,
    random: u8,
    now: u64,
) -> bool {
    match execute_spec(pre, instruction, random, now) {
        Ok(next) => fault is None && post == next,
        Err(refused) => fault == Some(refused) && post == pre,
    }
}

/// The state after the key latch was offered the pressed keys at `now`: it
/// takes the first key's logical key if that key has one, and otherwise
/// becomes empty once `INPUT_PERIOD` has passed since its last refresh.
pub open spec fn sample_input(s: State, keys: Seq<Key>, now: u64) -> State {
    let pressed = first_key_code(keys);
    if pressed is Some || elapsed(s.last_input, now) >= INPUT_PERIOD {
        State { key: pressed, last_input: now, ..s }
    } else {
        s
    }
}

/// Whether an instruction is executed at `now`.
pub open spec fn instruction_due(s: State, now: u64) -> bool {
    elapsed(s.last_instruction, now) > INSTRUCTION_PERIOD
}

/// Whether a frame is rendered at `now`.
pub open spec fn render_due(s: State, now: u64) -> bool {
    elapsed(s.last_render, now) > RENDER_PERIOD
}

/// The instruction word at the program counter: the byte there is its high
/// half, the next byte its low half.
pub open spec fn fetch(s: State) -> u16 {
    (s.memory[s.pc as int] * 256 + s.memory[s.pc + 1]) as u16
}

/// The state after a frame was rendered at `now`.
pub open spec fn render_frame(s: State, now: u64) -> State {
    State { frame: frame_colors(s.pixels), last_render: now, ..s }
}

/// What one step of the scheduler did.
#[derive(Clone, Copy, Debug, PartialEq, Eq)]
pub struct StepReport {
    /// The instruction that was executed, if one was due.
    pub executed: Option<Instruction>,
    /// Whether a new frame was rendered.
    pub rendered: bool,
}

/// What the instruction stage of a step makes of the state: nothing unless
/// an instruction is due, else the effect of the instruction at the program
/// counter.
pub open spec fn run_instruction(s: State, random: u8, now: u64) -> Result<State, Fault> {
    if instruction_due(s, now) {
        execute_spec(s, decode_spec(fetch(s)), random, now)
    } else {
        Ok(s)
    }
}

/// The state after one step of the scheduler at `now`: the key latch is
/// offered the pressed keys, then an instruction is executed if one is due,
/// then a frame is rendered if one is due. A fault ends the step after the
/// key latch was refreshed.
pub open spec fn step_state(s: State, keys: Seq<Key>, random: u8, now: u64) -> State {
    let sampled = sample_input(s, keys, now);
    match run_instruction(sampled, random, now) {
        Ok(ran) => if render_due(ran, now) {
            render_frame(ran, now)
        } else {
            ran
        },
        Err(fault) => sampled,
    }
}

/// What one step of the scheduler at `now` reports.
pub open spec fn step_report(s: State, keys: Seq<Key>, random: u8, now: u64) -> Result<
    StepReport,
    Fault,
> {
    let sampled = sample_input(s, keys, now);
    match run_instruction(sampled, random, now) {
        Ok(ran) => Ok(
            StepReport {
                executed: if instruction_due(sampled, now) {
                    Some(decode_spec(fetch(sampled)))
                } else {
                    None
                },
                rendered: render_due(ran, now),
            },
        ),
        Err(fault) => Err(fault),
    }
}


/// Whether a step at `now` executes an instruction that draws a random
/// byte.
pub open spec fn draws_random(s: State, keys: Seq<Key>, now: u64) -> bool {
    let sampled = sample_input(s, keys, now);
    instruction_due(sampled, now) && decode_spec(fetch(sampled)) is Random
}

/// Whether `post` and `report` are what one step of the scheduler at `now`
/// with the drawn byte `random` makes of `pre`.
pub open spec fn is_step(
    pre: State,
    post: State,
    report: Result<StepReport, Fault>,
    keys: Seq<Key>,
    random: u8,
    now: u64,
) -> bool {
    post == step_state(pre, keys, random, now) && report == step_report(pre, keys, random, now)
}

} // verus!
