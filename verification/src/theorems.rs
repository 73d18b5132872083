//! What holds of the interpreter model in general, proved from the
//! definitions in `machine`.

use vstd::prelude::*;
use crate::fault::Fault;
use crate::keypad::lemma_first_pressed;
use crate::machine::family;
use crate::machine::kk_of;
use crate::machine::n_of;
use crate::machine::nnn_of;
use crate::machine::x_of;
use crate::machine::y_of;
use crate::machine::Machine;

verus! {

/// A new interpreter with any program that fits has the sizes of a state
/// and starts on an even address inside memory.
pub proof fn lemma_loaded_is_aligned(rom: Seq<u8>)
    requires
        rom.len() <= 3584,
    ensures
        Machine::initial().load_program(rom) is Ok,
        Machine::initial().load_program(rom)->Ok_0.wf(),
        Machine::initial().load_program(rom)->Ok_0.aligned(),
{
}

/// Executing an instruction keeps the sizes of the state.
pub proof fn lemma_execute_keeps_wf(s: Machine, op: u16, random: u8)
    requires
        s.wf(),
    ensures
        s.execute(op, random) matches Ok(t) ==> t.wf(),
{
}

/// A cycle keeps the sizes of the state.
pub proof fn lemma_step_keeps_wf(s: Machine, random: u8)
    requires
        s.wf(),
    ensures
        s.step(random) matches Ok(t) ==> t.wf(),
{
    if s.fetch() is Ok {
        lemma_execute_keeps_wf(s.advance(), s.fetch()->Ok_0, random);
    }
}

/// The byte drawn matters to the random instruction `Cxkk` alone: a cycle
/// on any other instruction ends the same whatever was drawn.
pub proof fn lemma_step_ignores_random(s: Machine, first: u8, second: u8)
    requires
        s.fetch() matches Ok(op) ==> family(op) != 0xC,
    ensures
        s.step(first) == s.step(second),
{
}

/// The random instruction `Cxkk` leaves in register `x` a value with no
/// bit set outside `kk`.
pub proof fn lemma_random_is_masked(s: Machine, op: u16, random: u8)
    requires
        s.wf(),
        family(op) == 0xC,
    ensures
        s.execute(op, random) matches Ok(t) && t.v[x_of(op)] & !kk_of(op) == 0,
{
    let kk = kk_of(op);
    assert((random & kk) & !kk == 0) by (bit_vector);
}

/// Where the program counter is after a successful cycle: at the target of
/// a jump, call or return, four bytes on after a skip that is taken, where
/// it was while waiting for a key, and two bytes on otherwise.
pub proof fn lemma_step_pc(s: Machine, random: u8)
    requires
        s.wf(),
        s.step(random) is Ok,
    ensures
        ({
            let op = s.fetch()->Ok_0;
            let f = family(op);
            let t = s.step(random)->Ok_0;
            if f == 0x1 || f == 0x2 {
                t.pc == nnn_of(op)
            } else if f == 0xB {
                t.pc == s.v[0] + nnn_of(op)
            } else if op == 0x00EE {
                t.pc == s.stack.last()
            } else if s.skips(op) {
                t.pc == s.pc + 4
            } else if s.waits(op) {
                t.pc == s.pc
            } else {
                t.pc == s.pc + 2
            }
        }),
{
}

/// From an even program counter inside memory, a successful cycle leaves
/// the program counter even and inside memory exactly when the instruction
/// does not stray.
pub proof fn lemma_step_keeps_aligned(s: Machine, random: u8)
    requires
        s.wf(),
        s.aligned(),
        s.step(random) is Ok,
    ensures
        s.step(random)->Ok_0.aligned() <==> !s.strays(),
{
    lemma_step_pc(s, random);
}

/// Over any number of cycles from an even program counter inside memory,
/// as long as no instruction strays, the program counter is even and inside
/// memory after every cycle that succeeds.
pub proof fn lemma_run_keeps_aligned(s: Machine, randoms: Seq<u8>)
    requires
        s.wf(),
        s.aligned(),
        s.keeps_course(randoms),
    ensures
        s.run(randoms) matches Ok(t) ==> t.wf() && t.aligned(),
    decreases randoms.len(),
{
    if randoms.len() > 0 {
        let before = randoms.drop_last();
        assert forall|k: int| 0 <= k < before.len() implies match #[trigger] s.run(before.take(k)) {
            Ok(state) => !state.strays(),
            Err(_) => true,
        } by {
            assert(before.take(k) == randoms.take(k));
        }
        lemma_run_keeps_aligned(s, before);
        if s.run(before) is Ok {
            let m = s.run(before)->Ok_0;
            assert(randoms.take(randoms.len() - 1) == before);
            assert(!m.strays());
            lemma_step_keeps_wf(m, randoms.last());
            if m.step(randoms.last()) is Ok {
                lemma_step_keeps_aligned(m, randoms.last());
            }
        }
    }
}

/// After the clear-display instruction every pixel is off.
pub proof fn lemma_clear_display_all_off(s: Machine, random: u8, p: int)
    requires
        s.wf(),
        0 <= p < 2048,
    ensures
        s.execute(0x00E0, random) matches Ok(t) && !t.video[p],
{
}

/// The add instruction `8xy4` sets register F to 1 if the sum of the two
/// registers exceeds 255 and to 0 if not; unless `x` is F itself, register
/// `x` then holds the sum modulo 256.
pub proof fn lemma_add_carry(s: Machine, op: u16, random: u8)
    requires
        s.wf(),
        family(op) == 0x8,
        n_of(op) == 0x4,
    ensures
        s.execute(op, random) matches Ok(t) && {
            let sum = s.v[x_of(op)] + s.v[y_of(op)];
            &&& t.v[15] == 1 <==> sum > 255
            &&& t.v[15] == 0 <==> sum <= 255
            &&& x_of(op) != 15 ==> t.v[x_of(op)] == sum % 256
        },
{
}

/// The subtract instruction `8xy5` sets register F to 1 if `Vx >= Vy` and
/// to 0 if not; unless `x` is F itself, register `x` then holds the
/// difference modulo 256.
pub proof fn lemma_subtract_borrow(s: Machine, op: u16, random: u8)
    requires
        s.wf(),
        family(op) == 0x8,
        n_of(op) == 0x5,
    ensures
        s.execute(op, random) matches Ok(t) && {
            let vx = s.v[x_of(op)];
            let vy = s.v[y_of(op)];
            &&& t.v[15] == 1 <==> vx >= vy
            &&& t.v[15] == 0 <==> vx < vy
            &&& x_of(op) != 15 ==> t.v[x_of(op)] == (vx - vy) % 256
        },
{
}

/// While keys 0 to 14 are all released, a cycle on the key-wait
/// instruction `Fx0A` changes nothing but the delay timer: the program
/// counter stays on the instruction.
pub proof fn lemma_key_wait_blocks(s: Machine, random: u8)
    requires
        s.wf(),
        s.fetch() matches Ok(op) && family(op) == 0xF && kk_of(op) == 0x0A,
        forall|k: int| 0 <= k < 15 ==> !s.keys[k],
    ensures
        s.step(random) == Ok::<Machine, Fault>(s.tick()),
        s.step(random)->Ok_0.pc == s.pc,
{
    lemma_first_pressed(s.keys, 0);
}

/// Once `key` is the lowest held key among 0 to 14, a cycle on the key-wait
/// instruction `Fx0A` stores it in register `x` and moves on to the next
/// instruction.
pub proof fn lemma_key_wait_resumes(s: Machine, random: u8, key: int)
    requires
        s.wf(),
        s.fetch() matches Ok(op) && family(op) == 0xF && kk_of(op) == 0x0A,
        0 <= key < 15,
        s.keys[key],
        forall|k: int| 0 <= k < key ==> !s.keys[k],
    ensures
        s.step(random) matches Ok(t) && t.pc == s.pc + 2 && t.v[x_of(s.fetch()->Ok_0)] == key,
{
    lemma_first_pressed(s.keys, 0);
}

/// A successful cycle lowers the delay timer by exactly one, and leaves it
/// at zero once it is there, unless the instruction executed is `Fx15`,
/// which sets the timer first.
pub proof fn lemma_timer_counts_down(s: Machine, random: u8)
    requires
        s.wf(),
        s.step(random) is Ok,
    ensures
        ({
            let op = s.fetch()->Ok_0;
            let t = s.step(random)->Ok_0;
            let start = if family(op) == 0xF && kk_of(op) == 0x15 {
                s.v[x_of(op)]
            } else {
                s.delay
            };
            t.delay == if start > 0 {
                start - 1
            } else {
                0
            }
        }),
{
}

} // verus!
