use vstd::prelude::*;
use crate::error::Fault;

verus! {

/// Bytes of addressable memory.
pub const MEMORY_SIZE: usize = 4096;

/// Number of general registers; the last one (VF) doubles as the flag register.
pub const REGISTER_COUNT: usize = 16;

/// The flag register VF.
pub const FLAG: usize = 15;

pub const SCREEN_WIDTH: usize = 64;

pub const SCREEN_HEIGHT: usize = 32;

/// Pixels in the framebuffer, row after row.
pub const SCREEN_SIZE: usize = 2048;

/// Deepest nesting of subroutine calls.
pub const STACK_LIMIT: usize = 16;

/// Where programs are loaded and where execution starts.
pub const PROGRAM_START: u16 = 0x200;

/// Number of keys on the keypad.
pub const KEY_COUNT: usize = 16;

/// The machine state: memory, registers, stack, framebuffer, timers and the
/// latest snapshot of which keys are held down.
pub struct State {
    pub memory: [u8; 4096],
    pub reg: [u8; 16],
    pub index_reg: u16,
    pub program_counter: u16,
    pub screen: [bool; 2048],
    pub delay_timer: u8,
    pub sound_timer: u8,
    pub stack: Vec<u16>,
    pub keys: [bool; 16],
}

/// The mathematical model of a `State`: the same fields, with sequences in
/// place of arrays and of the stack vector (whose last element is the top).
pub struct MachineView {
    pub memory: Seq<u8>,
    pub reg: Seq<u8>,
    pub index_reg: u16,
    pub program_counter: u16,
    pub screen: Seq<bool>,
    pub delay_timer: u8,
    pub sound_timer: u8,
    pub stack: Seq<u16>,
    pub keys: Seq<bool>,
}

impl View for State {
    type V = MachineView;

    open spec fn view(&self) -> MachineView {
        MachineView {
            memory: self.memory@,
            reg: self.reg@,
            index_reg: self.index_reg,
            program_counter: self.program_counter,
            screen: self.screen@,
            delay_timer: self.delay_timer,
            sound_timer: self.sound_timer,
            stack: self.stack@,
            keys: self.keys@,
        }
    }
}

impl MachineView {
    /// The sequences have the sizes of the arrays they model, and the stack is
    /// within its limit.
    pub open spec fn wf(self) -> bool {
        &&& self.memory.len() == MEMORY_SIZE
        &&& self.reg.len() == REGISTER_COUNT
        &&& self.screen.len() == SCREEN_SIZE
        &&& self.keys.len() == KEY_COUNT
        &&& self.stack.len() <= STACK_LIMIT
    }
}

/// The machine at start-up: everything zero, program counter at the program
/// start.
pub open spec fn initial_view() -> MachineView {
    MachineView {
        memory: Seq::new(MEMORY_SIZE as nat, |i: int| 0u8),
        reg: Seq::new(REGISTER_COUNT as nat, |i: int| 0u8),
        index_reg: 0,
        program_counter: PROGRAM_START,
        screen: Seq::new(SCREEN_SIZE as nat, |i: int| false),
        delay_timer: 0,
        sound_timer: 0,
        stack: Seq::empty(),
        keys: Seq::new(KEY_COUNT as nat, |i: int| false),
    }
}

/// The big-endian instruction word at `addr`.
pub open spec fn word_at(memory: Seq<u8>, addr: int) -> u16 {
    (memory[addr] as u16 * 256 + memory[addr + 1] as u16) as u16
}

/// What fetching does: the word at the program counter, with the counter
/// moved past it, or a fault when the word is not within memory.
pub open spec fn fetch_spec(m: MachineView) -> Result<(u16, MachineView), Fault> {
    if m.program_counter as int + 1 < MEMORY_SIZE {
        Ok(
            (
                word_at(m.memory, m.program_counter as int),
                MachineView { program_counter: (m.program_counter + 2) as u16, ..m },
            ),
        )
    } else {
        Err(Fault::PcOutOfRange { pc: m.program_counter })
    }
}

/// How many bytes of a program of `len` bytes fit in memory after the
/// program start.
pub open spec fn loaded_len(len: int) -> int {
    if len <= MEMORY_SIZE - PROGRAM_START {
        len
    } else {
        MEMORY_SIZE - PROGRAM_START
    }
}

/// Memory after loading `program` at the program start, cut at the end of
/// memory.
pub open spec fn load_spec(memory: Seq<u8>, program: Seq<u8>) -> Seq<u8> {
    Seq::new(
        memory.len(),
        |i: int|
            if PROGRAM_START <= i < PROGRAM_START + loaded_len(program.len() as int) {
                program[i - PROGRAM_START]
            } else {
                memory[i]
            },
    )
}

impl State {
    /// A machine with all fields zeroed but the program counter, which is at
    /// the program start.
    pub fn new() -> (s: Self)
        ensures
            s@ == initial_view(),
    {
        let s = State {
            memory: [0u8; 4096],
            reg: [0u8; 16],
            index_reg: 0,
            program_counter: PROGRAM_START,
            screen: [false; 2048],
            delay_timer: 0,
            sound_timer: 0,
            stack: Vec::new(),
            keys: [false; 16],
        };
        assert(s.memory@ =~= initial_view().memory);
        assert(s.reg@ =~= initial_view().reg);
        assert(s.screen@ =~= initial_view().screen);
        assert(s.keys@ =~= initial_view().keys);
        assert(s.stack@ =~= initial_view().stack);
        s
    }

    /// Copies `program` into memory from the program start on, as far as
    /// memory reaches, and returns how many bytes were copied. Nothing else
    /// changes.
    pub fn load_bytes(&mut self, program: &[u8]) -> (n: usize)
        ensures
            n == loaded_len(program@.len() as int),
            final(self)@ == (MachineView { memory: load_spec(old(self)@.memory, program@), ..old(self)@ }),
    {
        let room: usize = MEMORY_SIZE - PROGRAM_START as usize;
        let n: usize = if program.len() <= room { program.len() } else { room };
        let mut i: usize = 0;
        while i < n
            invariant
                n == loaded_len(program@.len() as int),
                0 <= i <= n,
                self@ == (MachineView { memory: self@.memory, ..old(self)@ }),
                self.memory@.len() == MEMORY_SIZE,
                forall|j: int|
                    0 <= j < MEMORY_SIZE ==> #[trigger] self.memory@[j] == (if PROGRAM_START <= j
                        < PROGRAM_START + i {
                        program@[j - PROGRAM_START]
                    } else {
                        old(self).memory@[j]
                    }),
            decreases n - i,
        {
            self.memory[PROGRAM_START as usize + i] = program[i];
            i = i + 1;
        }
        assert(self.memory@ =~= load_spec(old(self)@.memory, program@));
        n
    }
}

/// Reads the instruction word at the program counter and moves the counter
/// past it.
pub fn fetch(state: &mut State) -> (r: Result<u16, Fault>)
    ensures
        match fetch_spec(old(state)@) {
            Ok((w, m)) => r == Ok::<u16, Fault>(w) && final(state)@ == m,
            Err(e) => r == Err::<u16, Fault>(e) && final(state)@ == old(state)@,
        },
{
    let pc = state.program_counter;
    if (pc as usize) + 1 < MEMORY_SIZE {
        let hi = state.memory[pc as usize];
        let lo = state.memory[pc as usize + 1];
        let w: u16 = (hi as u16) * 256 + lo as u16;
        state.program_counter = pc + 2;
        Ok(w)
    } else {
        Err(Fault::PcOutOfRange { pc })
    }
}

} // verus!
