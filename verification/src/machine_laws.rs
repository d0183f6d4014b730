//! What holds of the machine's instructions and of its scheduler, proved of
//! the model that the interpreter is verified against.

use crate::display::draw_sprite;
use crate::display_laws::lemma_draw_sprite_pixels;
use crate::fault::Fault;
use crate::instruction::{decode_spec, Instruction};
use crate::keypad::{first_key_code, Key};
use crate::model::{
    elapsed_millis, execute_spec, fetch, flag, instruction_due, load_program, sample_input,
    sprite_at, step_report, step_state, timer_value, State,
};
use vstd::prelude::*;

verus! {

/// What is handed to one step of the scheduler.
pub struct StepInput {
    /// The physical keys that are pressed.
    pub keys: Seq<Key>,
    /// The byte drawn if the step executes an instruction that asks for one.
    pub random: u8,
    /// The instant of the step.
    pub now: u64,
}

/// The state after a run of steps, one for each input in turn.
pub open spec fn run_steps(s: State, inputs: Seq<StepInput>) -> State
    decreases inputs.len(),
{
    if inputs.len() == 0 {
        s
    } else {
        let input = inputs.last();
        step_state(run_steps(s, inputs.drop_last()), input.keys, input.random, input.now)
    }
}

/// An instruction with operands in range takes a well-formed state to a
/// well-formed state: in particular the call stack never holds more than
/// sixteen addresses.
pub proof fn lemma_execute_keeps_wf(s: State, instruction: Instruction, random: u8, now: u64)
    requires
        s.wf(),
        instruction.wf(),
    ensures
        execute_spec(s, instruction, random, now) matches Ok(next) ==> next.wf(),
{
    if let Instruction::Draw { x, y, rows } = instruction {
        lemma_draw_sprite_pixels(
            s.pixels,
            s.v[x as int] as int,
            s.v[y as int] as int,
            sprite_at(s.memory, s.i, rows),
        );
    }
}

/// A step takes a well-formed state to a well-formed state.
pub proof fn lemma_step_keeps_wf(s: State, keys: Seq<Key>, random: u8, now: u64)
    requires
        s.wf(),
    ensures
        step_state(s, keys, random, now).wf(),
{
    let sampled = sample_input(s, keys, now);
    crate::keypad::lemma_keypad_layout();
    assert(sampled.wf());
    crate::instruction::lemma_decode_wf(fetch(sampled));
    lemma_execute_keeps_wf(sampled, decode_spec(fetch(sampled)), random, now);
}

/// The drawn byte matters to no instruction but `Random`.
pub proof fn lemma_random_matters_to_random_only(
    s: State,
    instruction: Instruction,
    random: u8,
    other: u8,
    now: u64,
)
    requires
        !(instruction is Random),
    ensures
        execute_spec(s, instruction, random, now) == execute_spec(s, instruction, other, now),
{
}

/// Loading a program leaves every byte below the program area, the glyph
/// table among them, as it was.
pub proof fn lemma_load_keeps_low_memory(memory: Seq<u8>, rom: Seq<u8>)
    requires
        memory.len() == 4096,
    ensures
        forall|a: int| 0 <= a < 0x200 ==> load_program(memory, rom)[a] == memory[a],
{
}

/// After `Vx := a; Vy := b; Vx := Vx + Vy`, `Vx` is `(a + b) mod 256` and
/// the flag register is 1 exactly when `a + b >= 256`. Left out are the
/// register choices on which the three instructions cannot show this: `x`
/// and `y` the same register with `a != b`, and `x` the flag register when
/// the sum and the carry differ.
pub proof fn lemma_add_sets_carry(s: State, x: u8, y: u8, a: u8, b: u8, random: u8, now: u64)
    requires
        s.wf(),
        x < 16,
        y < 16,
        s.pc <= 0xFFA,
        x == y ==> a == b,
        x == 0xF ==> (a + b) % 256 == flag(a + b >= 256),
    ensures
        ({
            let first = execute_spec(s, Instruction::Load { x, byte: a }, random, now);
            let second = execute_spec(first->Ok_0, Instruction::Load { x: y, byte: b }, random, now);
            let third = execute_spec(second->Ok_0, Instruction::Add { x, y }, random, now);
            &&& first is Ok
            &&& second is Ok
            &&& third is Ok
            &&& third->Ok_0.v[x as int] == (a + b) % 256
            &&& third->Ok_0.v[0xF] == flag(a + b >= 256)
            &&& third->Ok_0.pc == s.pc + 6
        }),
{
}

/// After `Vx := a; Vy := b; Vx := Vx - Vy`, `Vx` is `(a - b) mod 256` and
/// the flag register is 1 exactly when `a >= b`, that is when there is no
/// borrow. Left out are the register choices on which the three
/// instructions cannot show this: `x` and `y` the same register with
/// `a != b`, and `x` the flag register when the difference and the flag
/// differ.
pub proof fn lemma_sub_clears_flag_on_borrow(
    s: State,
    x: u8,
    y: u8,
    a: u8,
    b: u8,
    random: u8,
    now: u64,
)
    requires
        s.wf(),
        x < 16,
        y < 16,
        s.pc <= 0xFFA,
        x == y ==> a == b,
        x == 0xF ==> (a - b) % 256 == flag(a >= b),
    ensures
        ({
            let first = execute_spec(s, Instruction::Load { x, byte: a }, random, now);
            let second = execute_spec(first->Ok_0, Instruction::Load { x: y, byte: b }, random, now);
            let third = execute_spec(second->Ok_0, Instruction::Sub { x, y }, random, now);
            &&& first is Ok
            &&& second is Ok
            &&& third is Ok
            &&& third->Ok_0.v[x as int] == (a - b) % 256
            &&& a >= b ==> third->Ok_0.v[x as int] == a - b
            &&& third->Ok_0.v[0xF] == flag(a >= b)
            &&& third->Ok_0.pc == s.pc + 6
        }),
{
}

/// A call succeeds while the stack has room, and a return from any later
/// state that holds the same stack goes to the instruction right after the
/// call and leaves the stack as it was before the call.
pub proof fn lemma_call_then_return(
    s: State,
    addr: u16,
    later: State,
    random: u8,
    now: u64,
    then: u64,
)
    requires
        s.wf(),
        s.pc <= 0xFFE,
        s.stack.len() < 16,
        later.pc <= 0xFFE,
        execute_spec(s, Instruction::Call { addr }, random, now) matches Ok(called)
            && later.stack == called.stack,
    ensures
        ({
            let called = execute_spec(s, Instruction::Call { addr }, random, now);
            let returned = execute_spec(later, Instruction::Return, random, then);
            &&& called is Ok
            &&& called->Ok_0.pc == addr
            &&& returned is Ok
            &&& returned->Ok_0.pc == s.pc + 2
            &&& returned->Ok_0.stack == s.stack
        }),
{
    let called = execute_spec(s, Instruction::Call { addr }, random, now)->Ok_0;
    assert(called.stack.drop_last() =~= s.stack);
}

/// A call is refused exactly when sixteen addresses are on the stack, and a
/// return exactly when none is.
pub proof fn lemma_stack_faults(s: State, addr: u16, random: u8, now: u64)
    requires
        s.wf(),
        s.pc <= 0xFFE,
    ensures
        execute_spec(s, Instruction::Call { addr }, random, now) == Err::<State, Fault>(
            Fault::StackOverflow,
        ) <==> s.stack.len() == 16,
        execute_spec(s, Instruction::Return, random, now) == Err::<State, Fault>(
            Fault::StackUnderflow,
        ) <==> s.stack.len() == 0,
{
}

/// A timer read no whole millisecond after it was set to `value` gives
/// `value`; one read `16 * value` milliseconds or more after gives 0; and
/// no read gives more than `value`.
pub proof fn lemma_timer_decay(value: u8, origin: u64, now: u64)
    ensures
        elapsed_millis(origin, now) == 0 ==> timer_value(value, origin, now) == value,
        elapsed_millis(origin, now) >= 16 * value ==> timer_value(value, origin, now) == 0,
        timer_value(value, origin, now) <= value,
{
}

/// After the delay timer was set from `Vx` at `now`, a read into `Vy` at
/// `then` gives what `Vx` held if no whole millisecond has passed, and 0 if
/// sixteen milliseconds or more have passed for each unit of it.
pub proof fn lemma_delay_set_then_read(s: State, x: u8, y: u8, random: u8, now: u64, then: u64)
    requires
        s.wf(),
        x < 16,
        y < 16,
        s.pc <= 0xFFC,
    ensures
        ({
            let set = execute_spec(s, Instruction::SetDelay { x }, random, now);
            let read = execute_spec(set->Ok_0, Instruction::ReadDelay { x: y }, random, then);
            let value = s.v[x as int];
            &&& set is Ok
            &&& read is Ok
            &&& read->Ok_0.v[y as int] == timer_value(value, now, then)
            &&& elapsed_millis(now, then) == 0 ==> read->Ok_0.v[y as int] == value
            &&& elapsed_millis(now, then) >= 16 * value ==> read->Ok_0.v[y as int] == 0
        }),
{
}

/// A blocking key read with no key latched changes nothing but the instant
/// of the last instruction: the program counter stays on it. With a key
/// latched it puts the key into `Vx` and moves on.
pub proof fn lemma_wait_key(s: State, x: u8, random: u8, now: u64)
    requires
        s.wf(),
        x < 16,
        s.pc <= 0xFFE,
    ensures
        s.key is None ==> execute_spec(s, Instruction::WaitKey { x }, random, now) == Ok::<
            State,
            Fault,
        >(State { last_instruction: now, ..s }),
        s.key matches Some(code) ==> execute_spec(s, Instruction::WaitKey { x }, random, now)
            == Ok::<State, Fault>(
            State {
                v: s.v.update(x as int, code),
                pc: (s.pc + 2) as u16,
                last_instruction: now,
                ..s
            },
        ),
{
}

/// A step with the program counter on a blocking key read and no key
/// latched or pressed does not fault and leaves the program counter, the
/// registers, memory, the stack and the empty latch as they were.
pub proof fn lemma_wait_key_blocks_step(s: State, x: u8, keys: Seq<Key>, random: u8, now: u64)
    requires
        s.wf(),
        s.pc <= 0xFFE,
        decode_spec(fetch(s)) == (Instruction::WaitKey { x }),
        s.key is None,
        first_key_code(keys) is None,
    ensures
        step_report(s, keys, random, now) is Ok,
        step_state(s, keys, random, now).wf(),
        step_state(s, keys, random, now).pc == s.pc,
        step_state(s, keys, random, now).v == s.v,
        step_state(s, keys, random, now).memory == s.memory,
        step_state(s, keys, random, now).stack == s.stack,
        step_state(s, keys, random, now).key is None,
{
    let sampled = sample_input(s, keys, now);
    assert(fetch(sampled) == fetch(s));
    lemma_step_keeps_wf(s, keys, random, now);
}

/// While the program counter is on a blocking key read and no key gets
/// latched, any run of steps leaves the program counter, the registers and
/// memory as they were, and no step faults.
pub proof fn lemma_wait_key_blocks(s: State, x: u8, inputs: Seq<StepInput>)
    requires
        s.wf(),
        s.pc <= 0xFFE,
        decode_spec(fetch(s)) == (Instruction::WaitKey { x }),
        s.key is None,
        forall|k: int| 0 <= k < inputs.len() ==> first_key_code(#[trigger] inputs[k].keys) is None,
    ensures
        run_steps(s, inputs).wf(),
        run_steps(s, inputs).pc == s.pc,
        run_steps(s, inputs).v == s.v,
        run_steps(s, inputs).memory == s.memory,
        run_steps(s, inputs).stack == s.stack,
        run_steps(s, inputs).key is None,
        forall|k: int|
            0 <= k < inputs.len() ==> step_report(
                #[trigger] run_steps(s, inputs.take(k)),
                inputs[k].keys,
                inputs[k].random,
                inputs[k].now,
            ) is Ok,
    decreases inputs.len(),
{
    if inputs.len() > 0 {
        let rest = inputs.drop_last();
        let input = inputs.last();
        lemma_wait_key_blocks(s, x, rest);
        let before = run_steps(s, rest);
        assert(fetch(before) == fetch(s));
        lemma_wait_key_blocks_step(before, x, input.keys, input.random, input.now);
        assert forall|k: int| 0 <= k < inputs.len() implies step_report(
            #[trigger] run_steps(s, inputs.take(k)),
            inputs[k].keys,
            inputs[k].random,
            inputs[k].now,
        ) is Ok by {
            if k < rest.len() {
                assert(inputs.take(k) =~= rest.take(k));
                assert(inputs[k] == rest[k]);
            } else {
                assert(inputs.take(k) =~= rest);
            }
        }
    }
}

/// Once a key is pressed while the program counter is on a blocking key
/// read, the step that executes the instruction puts the key into `Vx` and
/// moves the program counter to the next instruction.
pub proof fn lemma_wait_key_resumes(s: State, x: u8, keys: Seq<Key>, random: u8, now: u64)
    requires
        s.wf(),
        s.pc <= 0xFFE,
        decode_spec(fetch(s)) == (Instruction::WaitKey { x }),
        first_key_code(keys) is Some,
        instruction_due(s, now),
    ensures
        step_report(s, keys, random, now) is Ok,
        step_state(s, keys, random, now).v[x as int] == first_key_code(keys)->Some_0,
        step_state(s, keys, random, now).pc == s.pc + 2,
{
    crate::instruction::lemma_decode_wf(fetch(s));
    let sampled = sample_input(s, keys, now);
    assert(fetch(sampled) == fetch(s));
}

/// Drawing a sprite of no rows leaves every pixel as it was and clears the
/// flag register, wherever the address register points.
pub proof fn lemma_draw_no_rows(s: State, x: u8, y: u8, random: u8, now: u64)
    requires
        s.wf(),
        x < 16,
        y < 16,
        s.pc <= 0xFFE,
    ensures
        execute_spec(s, Instruction::Draw { x, y, rows: 0 }, random, now) == Ok::<State, Fault>(
            State { v: s.v.update(0xF, 0), pc: (s.pc + 2) as u16, last_instruction: now, ..s },
        ),
{
    let sprite = sprite_at(s.memory, s.i, 0);
    assert(sprite =~= Seq::<u8>::empty());
    let next = execute_spec(s, Instruction::Draw { x, y, rows: 0 }, random, now)->Ok_0;
    assert(draw_sprite(s.pixels, s.v[x as int] as int, s.v[y as int] as int, sprite) == s.pixels);
    assert(next =~= (State {
        v: s.v.update(0xF, 0),
        pc: (s.pc + 2) as u16,
        last_instruction: now,
        ..s
    }));
}

} // verus!
