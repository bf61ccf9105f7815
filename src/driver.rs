use vstd::prelude::*;
use crate::decode::{decode, decode_result};
use crate::error::Fault;
use crate::execute::{execute_with, random_byte, step, Effect};
use crate::state::{fetch, fetch_spec, initial_view, MachineView, State, KEY_COUNT};

verus! {

/// Why the machine stopped.
#[derive(Debug, Clone, Copy, PartialEq, Eq, Structural)]
pub enum HaltReason {
    /// The presentation side asked to quit.
    Quit,
    /// A fatal fault in decoding or executing.
    Fault(Fault),
}

/// The state of the driver loop.
#[derive(Debug, Clone, Copy, PartialEq, Eq, Structural)]
pub enum Mode {
    /// Instructions are executed.
    Running,
    /// Suspended until a key is pressed; the key goes into this register.
    WaitingForKey(u8),
    /// Stopped for good.
    Halted(HaltReason),
}

/// What the presentation and input side reports to the driver loop.
#[derive(Debug, Clone, Copy, PartialEq, Eq, Structural)]
pub enum DisplayEvent {
    /// The window was closed or quitting was requested.
    Quit,
    /// The keypad key with this value went down.
    KeyDown(u8),
    /// The keypad key with this value went up.
    KeyUp(u8),
}

/// The machine state together with the driver loop's mode.
pub struct Machine {
    pub state: State,
    pub mode: Mode,
}

/// The outcome of one fetch/decode/execute cycle on `m` in mode `mode`, with
/// `rnd` as the random byte: the new state, the new mode and the effect. Only
/// a running machine executes; a fault halts it, and a key wait suspends it.
pub open spec fn cycle_spec(m: MachineView, mode: Mode, rnd: u8) -> (MachineView, Mode, Effect) {
    if mode != Mode::Running {
        (m, mode, Effect::Continue)
    } else {
        match fetch_spec(m) {
            Err(f) => (m, Mode::Halted(HaltReason::Fault(f)), Effect::Continue),
            Ok((word, m1)) => match decode_result(m.program_counter, word) {
                Err(f) => (m1, Mode::Halted(HaltReason::Fault(f)), Effect::Continue),
                Ok(op) => match step(m1, op, rnd) {
                    Err(f) => (m1, Mode::Halted(HaltReason::Fault(f)), Effect::Continue),
                    Ok((m2, Effect::WaitForKey(x))) => (m2, Mode::WaitingForKey(x), Effect::WaitForKey(x)),
                    Ok((m2, e)) => (m2, Mode::Running, e),
                },
            },
        }
    }
}

/// The state and mode after key `key` goes down: the key is recorded as held
/// and, where the machine waits for a key, the key's value goes into the
/// waiting register (if it names one) and the machine runs again. Values past the keypad are
/// ignored.
pub open spec fn key_press_spec(m: MachineView, mode: Mode, key: u8) -> (MachineView, Mode) {
    if key >= KEY_COUNT {
        (m, mode)
    } else {
        let m1 = MachineView { keys: m.keys.update(key as int, true), ..m };
        match mode {
            Mode::WaitingForKey(x) => (
                MachineView { reg: if x < 16 { m1.reg.update(x as int, key) } else { m1.reg }, ..m1 },
                Mode::Running,
            ),
            _ => (m1, mode),
        }
    }
}

/// The state after key `key` goes up.
pub open spec fn key_release_spec(m: MachineView, key: u8) -> MachineView {
    if key >= KEY_COUNT {
        m
    } else {
        MachineView { keys: m.keys.update(key as int, false), ..m }
    }
}

/// One 60 Hz tick: each timer that is above zero goes down by one.
pub open spec fn tick_spec(m: MachineView) -> MachineView {
    MachineView {
        delay_timer: if m.delay_timer > 0 { (m.delay_timer - 1) as u8 } else { 0 },
        sound_timer: if m.sound_timer > 0 { (m.sound_timer - 1) as u8 } else { 0 },
        ..m
    }
}

impl Machine {
    /// A fresh machine, running.
    pub fn new() -> (r: Machine)
        ensures
            r.state@ == initial_view(),
            r.mode == Mode::Running,
    {
        Machine { state: State::new(), mode: Mode::Running }
    }

    /// Whether instructions are executed.
    pub fn is_running(&self) -> (r: bool)
        ensures
            r == (self.mode == Mode::Running),
    {
        match self.mode {
            Mode::Running => true,
            _ => false,
        }
    }

    /// Whether the machine has stopped for good.
    pub fn is_halted(&self) -> (r: bool)
        ensures
            r == (self.mode is Halted),
    {
        match self.mode {
            Mode::Halted(_) => true,
            _ => false,
        }
    }

    /// Runs one fetch/decode/execute cycle if the machine is running, with a
    /// byte from the thread-local random generator for the random-with-mask
    /// instruction. The outcome is that of `cycle_spec` for some random byte.
    pub fn cycle(&mut self) -> (e: Effect)
        ensures
            exists|rnd: u8|
                #[trigger] cycle_spec(old(self).state@, old(self).mode, rnd) == (final(self).state@, final(self).mode, e),
    {
        let rnd = random_byte();
        let e = self.cycle_with(rnd);
        assert(cycle_spec(old(self).state@, old(self).mode, rnd) == (self.state@, self.mode, e));
        e
    }

    /// Runs one fetch/decode/execute cycle if the machine is running, with
    /// `rnd` as the random byte.
    pub fn cycle_with(&mut self, rnd: u8) -> (e: Effect)
        ensures
            cycle_spec(old(self).state@, old(self).mode, rnd) == (final(self).state@, final(self).mode, e),
    {
        if !self.is_running() {
            return Effect::Continue;
        }
        let pc = self.state.program_counter;
        let word = match fetch(&mut self.state) {
            Ok(w) => w,
            Err(f) => {
                self.mode = Mode::Halted(HaltReason::Fault(f));
                return Effect::Continue;
            },
        };
        let op = match decode(&self.state, word) {
            Ok(op) => op,
            Err(_) => {
                self.mode = Mode::Halted(HaltReason::Fault(Fault::UnknownOpcode { word, pc }));
                return Effect::Continue;
            },
        };
        match execute_with(&mut self.state, op, rnd) {
            Ok(Effect::WaitForKey(x)) => {
                self.mode = Mode::WaitingForKey(x);
                Effect::WaitForKey(x)
            },
            Ok(e) => e,
            Err(f) => {
                self.mode = Mode::Halted(HaltReason::Fault(f));
                Effect::Continue
            },
        }
    }

    /// Records that key `key` went down, ending a key wait.
    pub fn press_key(&mut self, key: u8)
        ensures
            key_press_spec(old(self).state@, old(self).mode, key) == (final(self).state@, final(self).mode),
    {
        if key as usize >= KEY_COUNT {
            return;
        }
        self.state.keys[key as usize] = true;
        if let Mode::WaitingForKey(x) = self.mode {
            if x < 16 {
                self.state.reg[x as usize] = key;
            }
            self.mode = Mode::Running;
        }
    }

    /// Records that key `key` went up.
    pub fn release_key(&mut self, key: u8)
        ensures
            final(self).state@ == key_release_spec(old(self).state@, key),
            final(self).mode == old(self).mode,
    {
        if (key as usize) < KEY_COUNT {
            self.state.keys[key as usize] = false;
        }
    }

    /// One 60 Hz timer tick. Timers run down in every mode, also while the
    /// machine waits for a key.
    pub fn tick_timers(&mut self)
        ensures
            final(self).state@ == tick_spec(old(self).state@),
            final(self).mode == old(self).mode,
    {
        if self.state.delay_timer > 0 {
            self.state.delay_timer = self.state.delay_timer - 1;
        }
        if self.state.sound_timer > 0 {
            self.state.sound_timer = self.state.sound_timer - 1;
        }
    }

    /// Applies an event from the presentation side: quitting halts the
    /// machine, key events update the key state.
    pub fn handle_event(&mut self, event: DisplayEvent)
        ensures
            match event {
                DisplayEvent::Quit => final(self).state@ == old(self).state@ && final(self).mode
                    == Mode::Halted(HaltReason::Quit),
                DisplayEvent::KeyDown(k) => key_press_spec(old(self).state@, old(self).mode, k) == (
                final(self).state@,
                final(self).mode,
                ),
                DisplayEvent::KeyUp(k) => final(self).state@ == key_release_spec(old(self).state@, k)
                    && final(self).mode == old(self).mode,
            },
    {
        match event {
            DisplayEvent::Quit => {
                self.mode = Mode::Halted(HaltReason::Quit);
            },
            DisplayEvent::KeyDown(k) => self.press_key(k),
            DisplayEvent::KeyUp(k) => self.release_key(k),
        }
    }
}

} // verus!
