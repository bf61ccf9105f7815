use vstd::prelude::*;
use crate::decode::{decoded, lemma_nibbles};
use crate::error::Fault;
use crate::execute::{draw_covers, index_fits, step, Effect};
use crate::opcode::OpCode;
use crate::state::{MachineView, FLAG, SCREEN_SIZE, STACK_LIMIT};

verus! {

/// The word `(family << 12) | (x << 8) | kk` has `family` as its top nibble,
/// `x` as its second and `kk` as its low byte.
proof fn lemma_word_fields(family: u16, x: u16, kk: u16)
    requires
        family < 16,
        x < 16,
        kk < 256,
    ensures
        ({
            let w = (family << 12u16) | (x << 8u16) | kk;
            &&& w >> 12u16 == family
            &&& (w >> 8u16) & 0xF == x
            &&& w & 0xFF == kk
        }),
{
    assert(((family << 12u16) | (x << 8u16) | kk) >> 12u16 == family
        && (((family << 12u16) | (x << 8u16) | kk) >> 8u16) & 0xF == x
        && ((family << 12u16) | (x << 8u16) | kk) & 0xFF == kk) by (bit_vector)
        requires
            family < 16,
            x < 16,
            kk < 256,
    ;
}

/// Setting register `x` to `a` and then adding `b` to it (the words 6xaa and
/// 7xbb) leaves `(a + b) mod 256` in it and changes no other register, the
/// flag register included.
pub proof fn law_set_then_add(m: MachineView, x: u8, a: u8, b: u8, rnd1: u8, rnd2: u8)
    requires
        m.wf(),
        x < 16,
    ensures
        ({
            let set_word = (0x6u16 << 12u16) | ((x as u16) << 8u16) | (a as u16);
            let add_word = (0x7u16 << 12u16) | ((x as u16) << 8u16) | (b as u16);
            &&& decoded(set_word) == Some(OpCode::SetRegToN { vx: x, n: a })
            &&& decoded(add_word) == Some(OpCode::AddNToRegNoCarry { vx: x, n: b })
            &&& step(m, OpCode::SetRegToN { vx: x, n: a }, rnd1) matches Ok((m1, _)) && step(
                m1,
                OpCode::AddNToRegNoCarry { vx: x, n: b },
                rnd2,
            ) == Ok::<(MachineView, Effect), Fault>(
                (MachineView { reg: m.reg.update(x as int, ((a + b) % 256) as u8), ..m }, Effect::Continue),
            )
        }),
{
    let set_word = (0x6u16 << 12u16) | ((x as u16) << 8u16) | (a as u16);
    let add_word = (0x7u16 << 12u16) | ((x as u16) << 8u16) | (b as u16);
    lemma_word_fields(6, x as u16, a as u16);
    lemma_word_fields(7, x as u16, b as u16);
    lemma_nibbles(set_word);
    lemma_nibbles(add_word);
    let m1 = MachineView { reg: m.reg.update(x as int, a), ..m };
    assert(m1.reg.update(x as int, ((a + b) % 256) as u8) =~= m.reg.update(x as int, ((a + b) % 256) as u8));
}

/// A subroutine call followed by a return brings the machine back to the
/// state before the call: the program counter returns to the instruction
/// after the call, and the stack to what it was.
pub proof fn law_call_then_return(m: MachineView, addr: u16, rnd1: u8, rnd2: u8)
    requires
        m.wf(),
        m.stack.len() < STACK_LIMIT,
        addr < 0x1000,
    ensures
        step(m, OpCode::Call(addr), rnd1) matches Ok((m1, Effect::Continue)) && m1.program_counter == addr
            && step(m1, OpCode::SubroutineRet, rnd2) == Ok::<(MachineView, Effect), Fault>((m, Effect::Continue)),
{
    let m1 = MachineView { program_counter: addr, stack: m.stack.push(m.program_counter), ..m };
    assert(m1.stack.drop_last() =~= m.stack);
}

/// On the same register and byte, the skip-if-equal and skip-if-not-equal
/// instructions end exactly one instruction width (two bytes) apart: when the
/// register holds the byte, the first skips and the second does not.
pub proof fn law_skip_width(m: MachineView, x: u8, n: u8, rnd: u8)
    requires
        m.wf(),
        x < 16,
        m.reg[x as int] == n,
    ensures
        step(m, OpCode::SkipNextIfEqRegN { vx: x, n }, rnd) matches Ok((taken, _)) && step(
            m,
            OpCode::SkipNextIfNotEqRegN { vx: x, n },
            rnd,
        ) matches Ok((not_taken, _)) && not_taken.program_counter == m.program_counter
            && taken.program_counter == (not_taken.program_counter + 2) % 0x10000,
{
}

/// Storing registers 0..=x from the index register on and loading them back
/// leaves registers, index register and memory as the store left them.
pub proof fn law_store_then_load(m: MachineView, x: u8, rnd1: u8, rnd2: u8)
    requires
        m.wf(),
        x < 16,
        index_fits(m, x + 1),
    ensures
        step(m, OpCode::StoreV0ToVXToAddrAtIndex(x), rnd1) matches Ok((m1, _)) && m1.index_reg == m.index_reg
            && m1.reg == m.reg && step(m1, OpCode::LoadV0ToVXFromAddrAtIndex(x), rnd2) == Ok::<(MachineView, Effect), Fault>((m1, Effect::Continue)),
{
    let m1 = step(m, OpCode::StoreV0ToVXToAddrAtIndex(x), rnd1)->Ok_0.0;
    assert(crate::execute::loaded_regs(m1, x) =~= m1.reg);
    assert(MachineView { reg: crate::execute::loaded_regs(m1, x), ..m1 } == m1);
}

/// Drawing the same sprite twice at the same place: where the first drawing
/// lit some pixel, the second turns it off again and so sets the collision
/// flag; and the framebuffer is back to what it was. The coordinate registers
/// must not be the flag register, which the first drawing overwrites.
pub proof fn law_redraw_collides(m: MachineView, vx: u8, vy: u8, height: u8, rnd1: u8, rnd2: u8)
    requires
        m.wf(),
        vx < 15,
        vy < 15,
        height < 16,
        index_fits(m, height as int),
        exists|p: int| 0 <= p < SCREEN_SIZE && #[trigger] draw_covers(m, vx, vy, height, p) && !m.screen[p],
    ensures
        step(m, OpCode::DrawSprite { vx, vy, height }, rnd1) matches Ok((m1, Effect::Redraw)) && step(
            m1,
            OpCode::DrawSprite { vx, vy, height },
            rnd2,
        ) matches Ok((m2, Effect::Redraw)) && m2.reg[FLAG as int] == 1 && m2.screen == m.screen,
{
    let op = OpCode::DrawSprite { vx, vy, height };
    let m1 = step(m, op, rnd1)->Ok_0.0;
    let p = choose|p: int| 0 <= p < SCREEN_SIZE && #[trigger] draw_covers(m, vx, vy, height, p) && !m.screen[p];
    assert(m1.reg[vx as int] == m.reg[vx as int]);
    assert(m1.reg[vy as int] == m.reg[vy as int]);
    assert(forall|q: int| #[trigger] draw_covers(m1, vx, vy, height, q) == draw_covers(m, vx, vy, height, q));
    assert(draw_covers(m1, vx, vy, height, p) && m1.screen[p]);
    let m2 = step(m1, op, rnd2)->Ok_0.0;
    assert(m2.screen =~= m.screen);
}

/// The random-with-mask instruction leaves a value that the mask does not
/// change: masking it again gives it back.
pub proof fn law_rand_masked(m: MachineView, x: u8, mask: u8, rnd: u8)
    requires
        m.wf(),
        x < 16,
    ensures
        step(m, OpCode::Rand { vx: x, n: mask }, rnd) matches Ok((m1, _)) && m1.reg[x as int] & mask
            == m1.reg[x as int],
{
    assert((rnd & mask) & mask == rnd & mask) by (bit_vector);
}

} // verus!
