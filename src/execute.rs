use vstd::prelude::*;
use vstd::arithmetic::div_mod::lemma_fundamental_div_mod_converse;
use crate::error::Fault;
use crate::opcode::OpCode;
use crate::state::{MachineView, State, FLAG, MEMORY_SIZE, SCREEN_SIZE, SCREEN_WIDTH, SCREEN_HEIGHT, STACK_LIMIT, KEY_COUNT};
use crate::util::{bit_of, get_bit};

verus! {

/// What an executed instruction asks of the driver loop besides the new state.
#[derive(Debug, Clone, Copy, PartialEq, Eq, Structural)]
pub enum Effect {
    /// Nothing: go on with the next instruction.
    Continue,
    /// The framebuffer changed.
    Redraw,
    /// Suspend until a key is pressed, then store the key in this register.
    WaitForKey(u8),
    /// A machine-code routine call at this address was skipped.
    MachineCodeIgnored(u16),
}

/// `m` with register `x` set to `v`.
pub open spec fn with_reg(m: MachineView, x: u8, v: u8) -> MachineView {
    MachineView { reg: m.reg.update(x as int, v), ..m }
}

/// `m` with the flag register set to `flag` after register `x` is set to `v`.
pub open spec fn with_reg_then_flag(m: MachineView, x: u8, v: u8, flag: bool) -> MachineView {
    MachineView { reg: m.reg.update(x as int, v).update(FLAG as int, if flag { 1u8 } else { 0u8 }), ..m }
}

/// `m` with register `x` set to `v` after the flag register is set to `flag`.
pub open spec fn with_flag_then_reg(m: MachineView, x: u8, v: u8, flag: bool) -> MachineView {
    MachineView { reg: m.reg.update(FLAG as int, if flag { 1u8 } else { 0u8 }).update(x as int, v), ..m }
}

/// `m` with the next instruction skipped when `cond` holds.
pub open spec fn skip_if(m: MachineView, cond: bool) -> MachineView {
    if cond {
        MachineView { program_counter: ((m.program_counter + 2) % 0x10000) as u16, ..m }
    } else {
        m
    }
}

/// `m` with the program counter at `pc`.
pub open spec fn jump(m: MachineView, pc: u16) -> MachineView {
    MachineView { program_counter: pc, ..m }
}

/// Whether the key named by the value `k` is held down.
pub open spec fn key_down(m: MachineView, k: u8) -> bool {
    k < KEY_COUNT && m.keys[k as int]
}

/// Whether pixel `p` of the framebuffer is lit by the sprite whose `height`
/// rows start at `mem[index]`, drawn with its top left corner at column `x`
/// and row `y`. Row bits are read from the most significant; pixels past the
/// right or bottom edge are not drawn.
pub open spec fn sprite_covers(mem: Seq<u8>, index: int, x: int, y: int, height: int, p: int) -> bool {
    let col = p % (SCREEN_WIDTH as int);
    let row = p / (SCREEN_WIDTH as int);
    &&& x <= col < x + 8
    &&& y <= row < y + height
    &&& bit_of(mem[index + row - y], 7 - (col - x))
}

/// The column at which the sprite of instruction `DrawSprite { vx, .. }` starts.
pub open spec fn sprite_x(m: MachineView, vx: u8) -> int {
    m.reg[vx as int] as int % (SCREEN_WIDTH as int)
}

/// The row at which the sprite of instruction `DrawSprite { vy, .. }` starts.
pub open spec fn sprite_y(m: MachineView, vy: u8) -> int {
    m.reg[vy as int] as int % (SCREEN_HEIGHT as int)
}

/// Whether the sprite drawing of `DrawSprite { vx, vy, height }` lights pixel `p`.
pub open spec fn draw_covers(m: MachineView, vx: u8, vy: u8, height: u8, p: int) -> bool {
    sprite_covers(m.memory, m.index_reg as int, sprite_x(m, vx), sprite_y(m, vy), height as int, p)
}

/// The framebuffer after the sprite is XORed into it.
pub open spec fn drawn_screen(m: MachineView, vx: u8, vy: u8, height: u8) -> Seq<bool> {
    Seq::new(SCREEN_SIZE as nat, |p: int| m.screen[p] != draw_covers(m, vx, vy, height, p))
}

/// Whether drawing the sprite turns some lit pixel off.
pub open spec fn collides(m: MachineView, vx: u8, vy: u8, height: u8) -> bool {
    exists|p: int| 0 <= p < SCREEN_SIZE && #[trigger] draw_covers(m, vx, vy, height, p) && m.screen[p]
}

/// Whether `len` bytes from the index register on lie within memory.
pub open spec fn index_fits(m: MachineView, len: int) -> bool {
    m.index_reg as int + len <= MEMORY_SIZE
}

/// Memory after registers 0..=x are stored from the index register on.
pub open spec fn stored_memory(m: MachineView, x: u8) -> Seq<u8> {
    Seq::new(
        MEMORY_SIZE as nat,
        |j: int|
            if m.index_reg <= j <= m.index_reg + x {
                m.reg[j - m.index_reg]
            } else {
                m.memory[j]
            },
    )
}

/// Registers after registers 0..=x are loaded from the index register on.
pub open spec fn loaded_regs(m: MachineView, x: u8) -> Seq<u8> {
    Seq::new(
        16,
        |j: int|
            if j <= x {
                m.memory[m.index_reg + j]
            } else {
                m.reg[j]
            },
    )
}

/// The semantics of one instruction, executed on `m` (whose program counter
/// is already past the instruction), with `rnd` as the random byte. The
/// result is the new state and the effect, or the fault that halts the
/// machine.
pub open spec fn step(m: MachineView, op: OpCode, rnd: u8) -> Result<(MachineView, Effect), Fault> {
    let pc = m.program_counter;
    match op {
        OpCode::CallMCodeSubroutine(a) => Ok((m, Effect::MachineCodeIgnored(a))),
        OpCode::ClearScreen => Ok(
            (MachineView { screen: Seq::new(SCREEN_SIZE as nat, |p: int| false), ..m }, Effect::Redraw),
        ),
        OpCode::SubroutineRet => if m.stack.len() == 0 {
            Err(Fault::StackUnderflow { pc })
        } else {
            Ok(
                (
                    MachineView { program_counter: m.stack.last(), stack: m.stack.drop_last(), ..m },
                    Effect::Continue,
                ),
            )
        },
        OpCode::Goto(a) => Ok((jump(m, a), Effect::Continue)),
        OpCode::Call(a) => if m.stack.len() >= STACK_LIMIT {
            Err(Fault::StackOverflow { pc })
        } else {
            Ok((MachineView { program_counter: a, stack: m.stack.push(pc), ..m }, Effect::Continue))
        },
        OpCode::SkipNextIfEqRegN { vx, n } => Ok((skip_if(m, m.reg[vx as int] == n), Effect::Continue)),
        OpCode::SkipNextIfNotEqRegN { vx, n } => Ok(
            (skip_if(m, m.reg[vx as int] != n), Effect::Continue),
        ),
        OpCode::SkipNextIfEqRegReg { vx, vy } => Ok(
            (skip_if(m, m.reg[vx as int] == m.reg[vy as int]), Effect::Continue),
        ),
        OpCode::SetRegToN { vx, n } => Ok((with_reg(m, vx, n), Effect::Continue)),
        OpCode::AddNToRegNoCarry { vx, n } => Ok(
            (with_reg(m, vx, ((m.reg[vx as int] + n) % 256) as u8), Effect::Continue),
        ),
        OpCode::SetRegToReg { vx, vy } => Ok((with_reg(m, vx, m.reg[vy as int]), Effect::Continue)),
        OpCode::SetRegToRegOrReg { vx, vy } => Ok(
            (with_reg(m, vx, m.reg[vx as int] | m.reg[vy as int]), Effect::Continue),
        ),
        OpCode::SetRegToRegAndReg { vx, vy } => Ok(
            (with_reg(m, vx, m.reg[vx as int] & m.reg[vy as int]), Effect::Continue),
        ),
        OpCode::SetRegToRegXorReg { vx, vy } => Ok(
            (with_reg(m, vx, m.reg[vx as int] ^ m.reg[vy as int]), Effect::Continue),
        ),
        OpCode::AddRegToReg { vx, vy } => {
            let sum = m.reg[vx as int] + m.reg[vy as int];
            Ok((with_reg_then_flag(m, vx, (sum % 256) as u8, sum > 255), Effect::Continue))
        },
        OpCode::SubtractRegFromReg { vx, vy } => {
            let (a, b) = (m.reg[vx as int], m.reg[vy as int]);
            Ok((with_reg_then_flag(m, vx, ((a - b + 256) % 256) as u8, a < b), Effect::Continue))
        },
        OpCode::StoreLeastSigBitAndRightShift { vx } => {
            let a = m.reg[vx as int];
            Ok((with_flag_then_reg(m, vx, a / 2, a % 2 == 1), Effect::Continue))
        },
        OpCode::SubtractRegFromRegAndStoreInReg { vy, vx } => {
            let (a, b) = (m.reg[vx as int], m.reg[vy as int]);
            Ok((with_reg_then_flag(m, vx, ((b - a + 256) % 256) as u8, b < a), Effect::Continue))
        },
        OpCode::StoreMostSigBitAndLeftShift { vx } => {
            let a = m.reg[vx as int];
            Ok((with_flag_then_reg(m, vx, ((a * 2) % 256) as u8, a >= 128), Effect::Continue))
        },
        OpCode::SkipNextIfNotEqRegReg { vx, vy } => Ok(
            (skip_if(m, m.reg[vx as int] != m.reg[vy as int]), Effect::Continue),
        ),
        OpCode::SetIndexRegToN(a) => Ok((MachineView { index_reg: a, ..m }, Effect::Continue)),
        OpCode::JumpToAddrNPlusV0(a) => Ok((jump(m, (a + m.reg[0]) as u16), Effect::Continue)),
        OpCode::Rand { vx, n } => Ok((with_reg(m, vx, rnd & n), Effect::Continue)),
        OpCode::DrawSprite { vx, vy, height } => if !index_fits(m, height as int) {
            Err(Fault::MemoryOutOfRange { pc, index: m.index_reg })
        } else {
            Ok(
                (
                    MachineView {
                        screen: drawn_screen(m, vx, vy, height),
                        reg: m.reg.update(FLAG as int, if collides(m, vx, vy, height) { 1u8 } else { 0u8 }),
                        ..m
                    },
                    Effect::Redraw,
                ),
            )
        },
        OpCode::SkipNextIfKeyPressed(x) => Ok((skip_if(m, key_down(m, m.reg[x as int])), Effect::Continue)),
        OpCode::SkipNextIfNotPressed(x) => Ok(
            (skip_if(m, !key_down(m, m.reg[x as int])), Effect::Continue),
        ),
        OpCode::GetDelayTimerValue(x) => Ok((with_reg(m, x, m.delay_timer), Effect::Continue)),
        OpCode::GetKey(x) => Ok((m, Effect::WaitForKey(x))),
        OpCode::SetDelayTimerValue(x) => Ok(
            (MachineView { delay_timer: m.reg[x as int], ..m }, Effect::Continue),
        ),
        OpCode::SetSoundTimerValue(x) => Ok(
            (MachineView { sound_timer: m.reg[x as int], ..m }, Effect::Continue),
        ),
        OpCode::AddRegToIndexReg(x) => Ok(
            (MachineView { index_reg: ((m.index_reg + m.reg[x as int]) % 0x10000) as u16, ..m }, Effect::Continue),
        ),
        OpCode::SetIndexToSpriteLocation(x) => Ok(
            (MachineView { index_reg: ((m.reg[x as int] % 16) * 5) as u16, ..m }, Effect::Continue),
        ),
        OpCode::BinaryCodedDecimalConversion(x) => if !index_fits(m, 3) {
            Err(Fault::MemoryOutOfRange { pc, index: m.index_reg })
        } else {
            let v = m.reg[x as int];
            let i = m.index_reg as int;
            Ok(
                (
                    MachineView {
                        memory: m.memory.update(i, v / 100).update(i + 1, (v % 100) / 10).update(
                            i + 2,
                            v % 10,
                        ),
                        ..m
                    },
                    Effect::Continue,
                ),
            )
        },
        OpCode::StoreV0ToVXToAddrAtIndex(x) => if !index_fits(m, x + 1) {
            Err(Fault::MemoryOutOfRange { pc, index: m.index_reg })
        } else {
            Ok((MachineView { memory: stored_memory(m, x), ..m }, Effect::Continue))
        },
        OpCode::LoadV0ToVXFromAddrAtIndex(x) => if !index_fits(m, x + 1) {
            Err(Fault::MemoryOutOfRange { pc, index: m.index_reg })
        } else {
            Ok((MachineView { reg: loaded_regs(m, x), ..m }, Effect::Continue))
        },
    }
}

/// Whether pixel `p` comes before the pixel at sprite row `r`, column `c` in
/// drawing order (row by row, left to right).
pub open spec fn drawn_before(p: int, x: int, y: int, r: int, c: int) -> bool {
    let row = p / (SCREEN_WIDTH as int) - y;
    let col = p % (SCREEN_WIDTH as int) - x;
    row < r || (row == r && col < c)
}

/// XORs the sprite of `DrawSprite { vx, vy, height }` into the framebuffer
/// and sets the flag register to whether a lit pixel was turned off.
fn draw_sprite(state: &mut State, vx: u8, vy: u8, height: u8)
    requires
        vx < 16,
        vy < 16,
        height < 16,
        index_fits(old(state)@, height as int),
    ensures
        final(state)@ == (MachineView {
            screen: drawn_screen(old(state)@, vx, vy, height),
            reg: old(state)@.reg.update(FLAG as int, if collides(old(state)@, vx, vy, height) { 1u8 } else { 0u8 }),
            ..old(state)@
        }),
{
    let ghost m = state@;
    let x: usize = (state.reg[vx as usize] % 64) as usize;
    let y: usize = (state.reg[vy as usize] % 32) as usize;
    let base: usize = state.index_reg as usize;
    let rows: usize = if y + (height as usize) <= SCREEN_HEIGHT { height as usize } else { SCREEN_HEIGHT - y };
    let cols: usize = if x + 8 <= SCREEN_WIDTH { 8 } else { SCREEN_WIDTH - x };
    let mut collision = false;
    let mut r: usize = 0;
    while r < rows
        invariant
            m == old(state)@,
            x == sprite_x(m, vx),
            y == sprite_y(m, vy),
            base == m.index_reg,
            base + height <= MEMORY_SIZE,
            rows <= height,
            y + rows <= SCREEN_HEIGHT,
            rows == height || y + rows == SCREEN_HEIGHT,
            cols <= 8,
            x + cols <= SCREEN_WIDTH,
            cols == 8 || x + cols == SCREEN_WIDTH,
            r <= rows,
            state@ == (MachineView { screen: state@.screen, ..m }),
            forall|p: int|
                0 <= p < SCREEN_SIZE ==> #[trigger] state.screen@[p] == (m.screen[p] != (draw_covers(m, vx, vy, height, p)
                    && drawn_before(p, x as int, y as int, r as int, 0))),
            collision == exists|p: int|
                0 <= p < SCREEN_SIZE && #[trigger] draw_covers(m, vx, vy, height, p) && drawn_before(p, x as int, y as int, r as int, 0)
                    && m.screen[p],
        decreases rows - r,
    {
        let byte = state.memory[base + r];
        let mut c: usize = 0;
        while c < cols
            invariant
                m == old(state)@,
                x == sprite_x(m, vx),
                y == sprite_y(m, vy),
                base == m.index_reg,
                base + height <= MEMORY_SIZE,
                r < rows,
                rows <= height,
                y + rows <= SCREEN_HEIGHT,
                cols <= 8,
                x + cols <= SCREEN_WIDTH,
                c <= cols,
                byte == m.memory[base + r],
                state@ == (MachineView { screen: state@.screen, ..m }),
                forall|p: int|
                    0 <= p < SCREEN_SIZE ==> #[trigger] state.screen@[p] == (m.screen[p] != (draw_covers(m, vx, vy, height, p)
                        && drawn_before(p, x as int, y as int, r as int, c as int))),
                collision == exists|p: int|
                    0 <= p < SCREEN_SIZE && #[trigger] draw_covers(m, vx, vy, height, p) && drawn_before(p, x as int, y as int, r as int, c as int)
                        && m.screen[p],
            decreases cols - c,
        {
            let p: usize = (y + r) * SCREEN_WIDTH + x + c;
            proof {
                lemma_fundamental_div_mod_converse(p as int, 64, (y + r) as int, (x + c) as int);
                assert forall|q: int| 0 <= q < SCREEN_SIZE implies (#[trigger] drawn_before(q, x as int, y as int, r as int, c + 1)
                    == (drawn_before(q, x as int, y as int, r as int, c as int) || q == p)) by {
                    lemma_fundamental_div_mod_converse(q, 64, q / 64, q % 64);
                }
            }
            let lit = get_bit(byte, (7 - c) as u8);
            assert(lit == draw_covers(m, vx, vy, height, p as int));
            let old_collision = collision;
            if lit {
                if state.screen[p] {
                    collision = true;
                }
                state.screen[p] = !state.screen[p];
            }
            proof {
                if collision && !old_collision {
                    assert(draw_covers(m, vx, vy, height, p as int));
                }
                if old_collision {
                    let q = choose|q: int|
                        0 <= q < SCREEN_SIZE && #[trigger] draw_covers(m, vx, vy, height, q) && drawn_before(q, x as int, y as int, r as int, c as int)
                            && m.screen[q];
                    assert(drawn_before(q, x as int, y as int, r as int, c + 1));
                }
            }
            c = c + 1;
        }
        proof {
            assert forall|q: int| 0 <= q < SCREEN_SIZE && #[trigger] draw_covers(m, vx, vy, height, q) implies
                drawn_before(q, x as int, y as int, r as int, cols as int) == drawn_before(q, x as int, y as int, r + 1, 0) by {
            }
            if collision {
                let q = choose|q: int|
                    0 <= q < SCREEN_SIZE && #[trigger] draw_covers(m, vx, vy, height, q) && drawn_before(q, x as int, y as int, r as int, cols as int)
                        && m.screen[q];
                assert(drawn_before(q, x as int, y as int, r + 1, 0));
            }
        }
        r = r + 1;
    }
    proof {
        assert forall|q: int| 0 <= q < SCREEN_SIZE && #[trigger] draw_covers(m, vx, vy, height, q) implies
            drawn_before(q, x as int, y as int, rows as int, 0) by {
        }
        assert(state.screen@ =~= drawn_screen(m, vx, vy, height));
        if collides(m, vx, vy, height) {
            let q = choose|q: int| 0 <= q < SCREEN_SIZE && #[trigger] draw_covers(m, vx, vy, height, q) && m.screen[q];
            assert(drawn_before(q, x as int, y as int, rows as int, 0));
        }
    }
    state.reg[FLAG] = if collision { 1 } else { 0 };
}

/// Copies registers 0..=x to memory from the index register on.
fn store_regs(state: &mut State, x: u8)
    requires
        x < 16,
        index_fits(old(state)@, x + 1),
    ensures
        final(state)@ == (MachineView { memory: stored_memory(old(state)@, x), ..old(state)@ }),
{
    let ghost m = state@;
    let base: usize = state.index_reg as usize;
    let mut i: usize = 0;
    while i <= x as usize
        invariant
            m == old(state)@,
            base == m.index_reg,
            base + x + 1 <= MEMORY_SIZE,
            x < 16,
            i <= x + 1,
            state@ == (MachineView { memory: state@.memory, ..m }),
            forall|j: int|
                0 <= j < MEMORY_SIZE ==> #[trigger] state.memory@[j] == (if base <= j < base + i {
                    m.reg[j - base]
                } else {
                    m.memory[j]
                }),
        decreases x + 1 - i,
    {
        state.memory[base + i] = state.reg[i];
        i = i + 1;
    }
    assert(state.memory@ =~= stored_memory(m, x));
}

/// Copies memory from the index register on into registers 0..=x.
fn load_regs(state: &mut State, x: u8)
    requires
        x < 16,
        index_fits(old(state)@, x + 1),
    ensures
        final(state)@ == (MachineView { reg: loaded_regs(old(state)@, x), ..old(state)@ }),
{
    let ghost m = state@;
    let base: usize = state.index_reg as usize;
    let mut i: usize = 0;
    while i <= x as usize
        invariant
            m == old(state)@,
            base == m.index_reg,
            base + x + 1 <= MEMORY_SIZE,
            x < 16,
            i <= x + 1,
            state@ == (MachineView { reg: state@.reg, ..m }),
            forall|j: int|
                0 <= j < 16 ==> #[trigger] state.reg@[j] == (if j < i {
                    m.memory[base + j]
                } else {
                    m.reg[j]
                }),
        decreases x + 1 - i,
    {
        state.reg[i] = state.memory[base + i];
        i = i + 1;
    }
    assert(state.reg@ =~= loaded_regs(m, x));
}

/// Control-flow instructions other than skips.
spec fn is_flow_op(op: OpCode) -> bool {
    matches!(op, OpCode::CallMCodeSubroutine(..)
        | OpCode::ClearScreen
        | OpCode::SubroutineRet
        | OpCode::Goto(..)
        | OpCode::Call(..)
        | OpCode::JumpToAddrNPlusV0(..)
        | OpCode::GetKey(..))
}

/// Conditional skips.
spec fn is_skip_op(op: OpCode) -> bool {
    matches!(op, OpCode::SkipNextIfEqRegN { .. }
        | OpCode::SkipNextIfNotEqRegN { .. }
        | OpCode::SkipNextIfEqRegReg { .. }
        | OpCode::SkipNextIfNotEqRegReg { .. }
        | OpCode::SkipNextIfKeyPressed(..)
        | OpCode::SkipNextIfNotPressed(..))
}

/// Register instructions that leave the flag register alone.
spec fn is_plain_register_op(op: OpCode) -> bool {
    matches!(op, OpCode::SetRegToN { .. }
        | OpCode::AddNToRegNoCarry { .. }
        | OpCode::SetRegToReg { .. }
        | OpCode::SetRegToRegOrReg { .. }
        | OpCode::SetRegToRegAndReg { .. }
        | OpCode::SetRegToRegXorReg { .. }
        | OpCode::Rand { .. })
}

/// Arithmetic and shifts, which set the flag register.
spec fn is_flag_op(op: OpCode) -> bool {
    matches!(op, OpCode::AddRegToReg { .. }
        | OpCode::SubtractRegFromReg { .. }
        | OpCode::StoreLeastSigBitAndRightShift { .. }
        | OpCode::SubtractRegFromRegAndStoreInReg { .. }
        | OpCode::StoreMostSigBitAndLeftShift { .. })
}

/// Instructions on the index register and the timers.
spec fn is_index_timer_op(op: OpCode) -> bool {
    matches!(op, OpCode::SetIndexRegToN(..)
        | OpCode::GetDelayTimerValue(..)
        | OpCode::SetDelayTimerValue(..)
        | OpCode::SetSoundTimerValue(..)
        | OpCode::AddRegToIndexReg(..)
        | OpCode::SetIndexToSpriteLocation(..))
}

/// Instructions that read or write memory from the index register on.
spec fn is_memory_op(op: OpCode) -> bool {
    matches!(op, OpCode::DrawSprite { .. }
        | OpCode::BinaryCodedDecimalConversion(..)
        | OpCode::StoreV0ToVXToAddrAtIndex(..)
        | OpCode::LoadV0ToVXFromAddrAtIndex(..))
}

/// Executes an instruction of control flow other than a skip: jumps, calls,
/// returns, the key wait, screen clearing and the ignored machine-code call.
fn exec_flow(state: &mut State, op: OpCode, rnd: u8) -> (r: Result<Effect, Fault>)
    requires
        op.wf(),
        is_flow_op(op),
    ensures
        match step(old(state)@, op, rnd) {
            Ok((m, e)) => r == Ok::<Effect, Fault>(e) && final(state)@ == m,
            Err(f) => r == Err::<Effect, Fault>(f) && final(state)@ == old(state)@,
        },
{
    let pc = state.program_counter;
    match op {
        OpCode::CallMCodeSubroutine(a) => {
            return Ok(Effect::MachineCodeIgnored(a));
        },
        OpCode::ClearScreen => {
            state.screen = [false; 2048];
            assert(state.screen@ =~= Seq::new(SCREEN_SIZE as nat, |p: int| false));
            return Ok(Effect::Redraw);
        },
        OpCode::SubroutineRet => {
            match state.stack.pop() {
                Some(ret) => {
                    state.program_counter = ret;
                },
                None => {
                    return Err(Fault::StackUnderflow { pc });
                },
            }
        },
        OpCode::Goto(a) => {
            state.program_counter = a;
        },
        OpCode::Call(a) => {
            if state.stack.len() >= STACK_LIMIT {
                return Err(Fault::StackOverflow { pc });
            }
            state.stack.push(pc);
            state.program_counter = a;
        },
        OpCode::JumpToAddrNPlusV0(a) => {
            state.program_counter = a + state.reg[0] as u16;
        },
        OpCode::GetKey(x) => {
            return Ok(Effect::WaitForKey(x));
        },
        _ => {},
    }
    Ok(Effect::Continue)
}

/// Executes a conditional skip.
fn exec_skip(state: &mut State, op: OpCode, rnd: u8) -> (r: Result<Effect, Fault>)
    requires
        op.wf(),
        is_skip_op(op),
    ensures
        match step(old(state)@, op, rnd) {
            Ok((m, e)) => r == Ok::<Effect, Fault>(e) && final(state)@ == m,
            Err(f) => r == Err::<Effect, Fault>(f) && final(state)@ == old(state)@,
        },
{
    let pc = state.program_counter;
    match op {
        OpCode::SkipNextIfEqRegN { vx, n } => {
            if state.reg[vx as usize] == n {
                state.program_counter = pc.wrapping_add(2);
            }
        },
        OpCode::SkipNextIfNotEqRegN { vx, n } => {
            if state.reg[vx as usize] != n {
                state.program_counter = pc.wrapping_add(2);
            }
        },
        OpCode::SkipNextIfEqRegReg { vx, vy } => {
            if state.reg[vx as usize] == state.reg[vy as usize] {
                state.program_counter = pc.wrapping_add(2);
            }
        },
        OpCode::SkipNextIfNotEqRegReg { vx, vy } => {
            if state.reg[vx as usize] != state.reg[vy as usize] {
                state.program_counter = pc.wrapping_add(2);
            }
        },
        OpCode::SkipNextIfKeyPressed(x) => {
            let k = state.reg[x as usize];
            if (k as usize) < KEY_COUNT && state.keys[k as usize] {
                state.program_counter = pc.wrapping_add(2);
            }
        },
        OpCode::SkipNextIfNotPressed(x) => {
            let k = state.reg[x as usize];
            if !((k as usize) < KEY_COUNT && state.keys[k as usize]) {
                state.program_counter = pc.wrapping_add(2);
            }
        },
        _ => {},
    }
    Ok(Effect::Continue)
}

/// Executes a register instruction that leaves the flag register alone.
fn exec_plain(state: &mut State, op: OpCode, rnd: u8) -> (r: Result<Effect, Fault>)
    requires
        op.wf(),
        is_plain_register_op(op),
    ensures
        match step(old(state)@, op, rnd) {
            Ok((m, e)) => r == Ok::<Effect, Fault>(e) && final(state)@ == m,
            Err(f) => r == Err::<Effect, Fault>(f) && final(state)@ == old(state)@,
        },
{
    match op {
        OpCode::SetRegToN { vx, n } => {
            state.reg[vx as usize] = n;
        },
        OpCode::AddNToRegNoCarry { vx, n } => {
            state.reg[vx as usize] = state.reg[vx as usize].wrapping_add(n);
        },
        OpCode::SetRegToReg { vx, vy } => {
            state.reg[vx as usize] = state.reg[vy as usize];
        },
        OpCode::SetRegToRegOrReg { vx, vy } => {
            state.reg[vx as usize] = state.reg[vx as usize] | state.reg[vy as usize];
        },
        OpCode::SetRegToRegAndReg { vx, vy } => {
            state.reg[vx as usize] = state.reg[vx as usize] & state.reg[vy as usize];
        },
        OpCode::SetRegToRegXorReg { vx, vy } => {
            state.reg[vx as usize] = state.reg[vx as usize] ^ state.reg[vy as usize];
        },
        OpCode::Rand { vx, n } => {
            state.reg[vx as usize] = rnd & n;
        },
        _ => {},
    }
    Ok(Effect::Continue)
}

/// Executes an arithmetic or shift instruction, which sets the flag register.
fn exec_flagged(state: &mut State, op: OpCode, rnd: u8) -> (r: Result<Effect, Fault>)
    requires
        op.wf(),
        is_flag_op(op),
    ensures
        match step(old(state)@, op, rnd) {
            Ok((m, e)) => r == Ok::<Effect, Fault>(e) && final(state)@ == m,
            Err(f) => r == Err::<Effect, Fault>(f) && final(state)@ == old(state)@,
        },
{
    match op {
        OpCode::AddRegToReg { vx, vy } => {
            let sum: u16 = state.reg[vx as usize] as u16 + state.reg[vy as usize] as u16;
            state.reg[vx as usize] = (sum % 256) as u8;
            state.reg[FLAG] = if sum > 255 { 1 } else { 0 };
        },
        OpCode::SubtractRegFromReg { vx, vy } => {
            let (a, b) = (state.reg[vx as usize], state.reg[vy as usize]);
            state.reg[vx as usize] = a.wrapping_sub(b);
            state.reg[FLAG] = if a < b { 1 } else { 0 };
        },
        OpCode::StoreLeastSigBitAndRightShift { vx } => {
            let a = state.reg[vx as usize];
            state.reg[FLAG] = a % 2;
            state.reg[vx as usize] = a / 2;
        },
        OpCode::SubtractRegFromRegAndStoreInReg { vy, vx } => {
            let (a, b) = (state.reg[vx as usize], state.reg[vy as usize]);
            state.reg[vx as usize] = b.wrapping_sub(a);
            state.reg[FLAG] = if b < a { 1 } else { 0 };
        },
        OpCode::StoreMostSigBitAndLeftShift { vx } => {
            let a = state.reg[vx as usize];
            state.reg[FLAG] = if a >= 128 { 1 } else { 0 };
            state.reg[vx as usize] = a.wrapping_mul(2);
        },
        _ => {},
    }
    Ok(Effect::Continue)
}

/// Executes an instruction on the index register or the timers.
fn exec_index(state: &mut State, op: OpCode, rnd: u8) -> (r: Result<Effect, Fault>)
    requires
        op.wf(),
        is_index_timer_op(op),
    ensures
        match step(old(state)@, op, rnd) {
            Ok((m, e)) => r == Ok::<Effect, Fault>(e) && final(state)@ == m,
            Err(f) => r == Err::<Effect, Fault>(f) && final(state)@ == old(state)@,
        },
{
    match op {
        OpCode::SetIndexRegToN(a) => {
            state.index_reg = a;
        },
        OpCode::GetDelayTimerValue(x) => {
            state.reg[x as usize] = state.delay_timer;
        },
        OpCode::SetDelayTimerValue(x) => {
            state.delay_timer = state.reg[x as usize];
        },
        OpCode::SetSoundTimerValue(x) => {
            state.sound_timer = state.reg[x as usize];
        },
        OpCode::AddRegToIndexReg(x) => {
            state.index_reg = state.index_reg.wrapping_add(state.reg[x as usize] as u16);
        },
        OpCode::SetIndexToSpriteLocation(x) => {
            state.index_reg = (state.reg[x as usize] % 16) as u16 * 5;
        },
        _ => {},
    }
    Ok(Effect::Continue)
}

/// Executes an instruction that reads or writes memory from the index register
/// on: drawing, decimal conversion, block store and load.
fn exec_memory(state: &mut State, op: OpCode, rnd: u8) -> (r: Result<Effect, Fault>)
    requires
        op.wf(),
        is_memory_op(op),
    ensures
        match step(old(state)@, op, rnd) {
            Ok((m, e)) => r == Ok::<Effect, Fault>(e) && final(state)@ == m,
            Err(f) => r == Err::<Effect, Fault>(f) && final(state)@ == old(state)@,
        },
{
    let pc = state.program_counter;
    match op {
        OpCode::DrawSprite { vx, vy, height } => {
            if state.index_reg as usize + height as usize > MEMORY_SIZE {
                return Err(Fault::MemoryOutOfRange { pc, index: state.index_reg });
            }
            draw_sprite(state, vx, vy, height);
            return Ok(Effect::Redraw);
        },
        OpCode::BinaryCodedDecimalConversion(x) => {
            let i = state.index_reg as usize;
            if i + 3 > MEMORY_SIZE {
                return Err(Fault::MemoryOutOfRange { pc, index: state.index_reg });
            }
            let v = state.reg[x as usize];
            state.memory[i] = v / 100;
            state.memory[i + 1] = (v % 100) / 10;
            state.memory[i + 2] = v % 10;
        },
        OpCode::StoreV0ToVXToAddrAtIndex(x) => {
            if state.index_reg as usize + x as usize + 1 > MEMORY_SIZE {
                return Err(Fault::MemoryOutOfRange { pc, index: state.index_reg });
            }
            store_regs(state, x);
        },
        OpCode::LoadV0ToVXFromAddrAtIndex(x) => {
            if state.index_reg as usize + x as usize + 1 > MEMORY_SIZE {
                return Err(Fault::MemoryOutOfRange { pc, index: state.index_reg });
            }
            load_regs(state, x);
        },
        _ => {},
    }
    Ok(Effect::Continue)
}

/// Executes one decoded instruction, with `rnd` as the random byte that the
/// random-with-mask instruction draws. On a fault the state is left as it was.
pub fn execute_with(state: &mut State, op: OpCode, rnd: u8) -> (r: Result<Effect, Fault>)
    requires
        op.wf(),
    ensures
        match step(old(state)@, op, rnd) {
            Ok((m, e)) => r == Ok::<Effect, Fault>(e) && final(state)@ == m,
            Err(f) => r == Err::<Effect, Fault>(f) && final(state)@ == old(state)@,
        },
{
    match op {
        OpCode::CallMCodeSubroutine(..)
        | OpCode::ClearScreen
        | OpCode::SubroutineRet
        | OpCode::Goto(..)
        | OpCode::Call(..)
        | OpCode::JumpToAddrNPlusV0(..)
        | OpCode::GetKey(..) => exec_flow(state, op, rnd),
        OpCode::SkipNextIfEqRegN { .. }
        | OpCode::SkipNextIfNotEqRegN { .. }
        | OpCode::SkipNextIfEqRegReg { .. }
        | OpCode::SkipNextIfNotEqRegReg { .. }
        | OpCode::SkipNextIfKeyPressed(..)
        | OpCode::SkipNextIfNotPressed(..) => exec_skip(state, op, rnd),
        OpCode::SetRegToN { .. }
        | OpCode::AddNToRegNoCarry { .. }
        | OpCode::SetRegToReg { .. }
        | OpCode::SetRegToRegOrReg { .. }
        | OpCode::SetRegToRegAndReg { .. }
        | OpCode::SetRegToRegXorReg { .. }
        | OpCode::Rand { .. } => exec_plain(state, op, rnd),
        OpCode::AddRegToReg { .. }
        | OpCode::SubtractRegFromReg { .. }
        | OpCode::StoreLeastSigBitAndRightShift { .. }
        | OpCode::SubtractRegFromRegAndStoreInReg { .. }
        | OpCode::StoreMostSigBitAndLeftShift { .. } => exec_flagged(state, op, rnd),
        OpCode::SetIndexRegToN(..)
        | OpCode::GetDelayTimerValue(..)
        | OpCode::SetDelayTimerValue(..)
        | OpCode::SetSoundTimerValue(..)
        | OpCode::AddRegToIndexReg(..)
        | OpCode::SetIndexToSpriteLocation(..) => exec_index(state, op, rnd),
        _ => exec_memory(state, op, rnd),
    }
}

/// Relies on rand::random::<u8> (thread-local generator seeded by the
/// operating system): any byte, drawn uniformly.
#[verifier::external_body]
pub(crate) fn random_byte() -> u8 {
    rand::random::<u8>()
}

/// Executes one decoded instruction. The random-with-mask instruction draws
/// its byte from the thread-local random generator; the outcome is that of
/// `step` for some random byte.
pub fn execute(state: &mut State, op: OpCode) -> (r: Result<Effect, Fault>)
    requires
        op.wf(),
    ensures
        exists|rnd: u8|
            match #[trigger] step(old(state)@, op, rnd) {
                Ok((m, e)) => r == Ok::<Effect, Fault>(e) && final(state)@ == m,
                Err(f) => r == Err::<Effect, Fault>(f) && final(state)@ == old(state)@,
            },
{
    let rnd = random_byte();
    execute_with(state, op, rnd)
}

} // verus!
