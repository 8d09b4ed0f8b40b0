use vstd::prelude::*;
use crate::keys::{Key, KeyPad};
use crate::model::{
    MachineModel, Event, font, initial_memory, initial_model, blank_grid, addr, drawn_grid,
    draw_collides, sprite_hits, sprite_bit, col_of, row_of, stored_memory, loaded_registers,
    MEMORY_SIZE, PROGRAM_START, GRID_WIDTH, GRID_HEIGHT, TIMER_PERIOD_MS,
};
use crate::opcodes::{Opcode, decode};
use crate::wrap::{lemma_sprite_cell, lemma_wrap_offset};

verus! {

/// `std::time::SystemTime`, held opaque: the moment of the last timer
/// decrement, read only through `millis_since`.
#[verifier::external_type_specification]
#[verifier::external_body]
pub struct ExSystemTime(std::time::SystemTime);

/// Relies on `std::time::SystemTime::now`: the current wall-clock time.
#[verifier::external_body]
fn clock_now() -> std::time::SystemTime {
    std::time::SystemTime::now()
}

/// Relies on `std::time::SystemTime::elapsed`: whole milliseconds since `t`,
/// or `None` where the clock went backwards.
#[verifier::external_body]
fn millis_since(t: &std::time::SystemTime) -> Option<u128> {
    match t.elapsed() {
        Ok(d) => Some(d.as_millis()),
        Err(_) => None,
    }
}

/// Relies on `rand::random::<u8>`: a uniformly random byte from the thread's
/// generator. Nothing is known of its value.
#[verifier::external_body]
fn random_byte() -> u8 {
    rand::random::<u8>()
}

/// The state of one machine: memory, registers, timers, call stack,
/// framebuffer, and the host's keypad once one is given.
pub struct Chip8State<K: KeyPad> {
    delay_clock: std::time::SystemTime,
    delay_timer: u8,
    sound_timer: u8,
    draw_flag: bool,
    index_register: u16,
    grid: Vec<bool>,
    key_pressed: Option<K>,
    memory: Vec<u8>,
    program_counter: u16,
    registers: Vec<u8>,
    stack: Vec<u16>,
    waiting_for_key: Option<u8>,
}

impl<K: KeyPad> View for Chip8State<K> {
    type V = MachineModel;

    closed spec fn view(&self) -> MachineModel {
        MachineModel {
            memory: self.memory@,
            registers: self.registers@,
            index: self.index_register,
            pc: self.program_counter,
            stack: self.stack@,
            grid: self.grid@,
            delay_timer: self.delay_timer,
            sound_timer: self.sound_timer,
            waiting_for_key: self.waiting_for_key,
            drawn: self.draw_flag,
        }
    }
}

/// The font glyphs as bytes.
fn font_set() -> (r: Vec<u8>)
    ensures
        r@ == font(),
{
    let r = vec![
        0xF0, 0x90, 0x90, 0x90, 0xF0, 0x20, 0x60, 0x20, 0x20, 0x70,
        0xF0, 0x10, 0xF0, 0x80, 0xF0, 0xF0, 0x10, 0xF0, 0x10, 0xF0,
        0x90, 0x90, 0xF0, 0x10, 0x10, 0xF0, 0x80, 0xF0, 0x10, 0xF0,
        0xF0, 0x80, 0xF0, 0x90, 0xF0, 0xF0, 0x10, 0x20, 0x40, 0x40,
        0xF0, 0x90, 0xF0, 0x90, 0xF0, 0xF0, 0x90, 0xF0, 0x10, 0xF0,
        0xF0, 0x90, 0xF0, 0x90, 0x90, 0xE0, 0x90, 0xE0, 0x90, 0xE0,
        0xF0, 0x80, 0x80, 0x80, 0xF0, 0xE0, 0x90, 0x90, 0x90, 0xE0,
        0xF0, 0x80, 0xF0, 0x80, 0xF0, 0xF0, 0x80, 0xF0, 0x80, 0x80,
    ];
    assert(r@ =~= font());
    r
}

impl<K: KeyPad> Chip8State<K> {
    /// The fixed sizes and ranges that every method keeps.
    pub open spec fn wf(&self) -> bool {
        self@.wf()
    }

    /// A machine with the font in low memory and `source` loaded at
    /// `PROGRAM_START`; everything else zero, empty, off or idle.
    pub fn new(source: Vec<u8>) -> (r: Self)
        requires
            source.len() <= MEMORY_SIZE - PROGRAM_START,
        ensures
            r.wf(),
            r@ == initial_model(source@),
            r.key_pad() is None,
    {
        let fonts = font_set();
        let mut memory: Vec<u8> = vec![0u8; MEMORY_SIZE];
        let mut i: usize = 0;
        while i < fonts.len()
            invariant
                fonts@ == font(),
                memory.len() == MEMORY_SIZE,
                0 <= i <= 80,
                forall|a: int| 0 <= a < MEMORY_SIZE ==> #[trigger] memory@[a] == if a < i {
                    font()[a]
                } else {
                    0u8
                },
            decreases fonts.len() - i,
        {
            memory[i] = fonts[i];
            i += 1;
        }
        let mut j: usize = 0;
        while j < source.len()
            invariant
                source.len() <= MEMORY_SIZE - PROGRAM_START,
                memory.len() == MEMORY_SIZE,
                0 <= j <= source.len(),
                forall|a: int| 0 <= a < MEMORY_SIZE ==> #[trigger] memory@[a] == if a < 80 {
                    font()[a]
                } else if PROGRAM_START <= a < PROGRAM_START + j {
                    source@[a - PROGRAM_START]
                } else {
                    0u8
                },
            decreases source.len() - j,
        {
            memory[j + PROGRAM_START] = source[j];
            j += 1;
        }
        let r = Chip8State {
            delay_clock: clock_now(),
            delay_timer: 0,
            sound_timer: 0,
            draw_flag: false,
            index_register: 0,
            grid: vec![false; GRID_WIDTH * GRID_HEIGHT],
            key_pressed: None,
            memory,
            program_counter: PROGRAM_START as u16,
            registers: vec![0u8; 16],
            stack: Vec::new(),
            waiting_for_key: None,
        };
        assert(r@.memory =~= initial_memory(source@));
        assert(r@.registers =~= Seq::new(16, |i: int| 0u8));
        assert(r@.grid =~= blank_grid());
        assert(r@.stack =~= Seq::<u16>::empty());
        r
    }

    /// The keypad that the key skips ask, if one was given.
    pub closed spec fn key_pad(&self) -> Option<K> {
        self.key_pressed
    }

    /// Decodes the word at the program counter.
    fn decode_next_instruction(&self) -> (r: Opcode)
        requires
            self.wf(),
        ensures
            r == self@.next_op(),
            r.wf(),
    {
        let pc = self.program_counter as usize;
        let hi = self.memory[pc] as u16;
        let lo = self.memory[(pc + 1) % MEMORY_SIZE] as u16;
        decode(hi * 256 + lo)
    }

    /// XOR-draws the `n`-row sprite at the index register at the position
    /// held in registers `rx` and `ry`, and sets the flag register to 1 when
    /// a lit cell was turned off, else 0.
    fn draw_sprite(&mut self, rx: u8, ry: u8, n: u8)
        requires
            old(self).wf(),
            rx < 16,
            ry < 16,
            n < 16,
        ensures
            ({
                let m = old(self)@;
                let ox = m.reg(rx);
                let oy = m.reg(ry);
                final(self)@ == MachineModel {
                    grid: drawn_grid(m, ox, oy, n),
                    registers: m.registers.update(
                        15,
                        if draw_collides(m, ox, oy, n) {
                            1u8
                        } else {
                            0u8
                        },
                    ),
                    ..m
                }
            }),
            final(self).delay_clock == old(self).delay_clock,
            final(self).key_pressed == old(self).key_pressed,
    {
        let ghost m = self@;
        let ghost g0 = self.grid@;
        let ox = self.registers[rx as usize];
        let oy = self.registers[ry as usize];
        let mut collided = false;
        let mut y: u8 = 0;
        while y < n
            invariant
                self@ == (MachineModel { grid: self.grid@, ..m }),
                self.delay_clock == old(self).delay_clock,
                self.key_pressed == old(self).key_pressed,
                m.wf(),
                g0 == m.grid,
                ox == m.reg(rx),
                oy == m.reg(ry),
                n < 16,
                0 <= y <= n,
                self.grid@.len() == GRID_WIDTH * GRID_HEIGHT,
                forall|i: int|
                    0 <= i < GRID_WIDTH * GRID_HEIGHT ==> #[trigger] self.grid@[i] == (g0[i] != (
                    sprite_hits(m.memory, m.index, ox, oy, n, i) && row_of(i, oy) < y)),
                collided == exists|i: int|
                    0 <= i < GRID_WIDTH * GRID_HEIGHT && g0[i] && #[trigger] sprite_hits(
                        m.memory,
                        m.index,
                        ox,
                        oy,
                        n,
                        i,
                    ) && row_of(i, oy) < y,
            decreases n - y,
        {
            let pixel = self.memory[(self.index_register as usize + y as usize) % MEMORY_SIZE];
            let mut x: u8 = 0;
            while x < 8
                invariant
                    self@ == (MachineModel { grid: self.grid@, ..m }),
                    self.delay_clock == old(self).delay_clock,
                    self.key_pressed == old(self).key_pressed,
                    m.wf(),
                    g0 == m.grid,
                    ox == m.reg(rx),
                    oy == m.reg(ry),
                    n < 16,
                    0 <= y < n,
                    0 <= x <= 8,
                    pixel == m.memory[addr(m.index as int, y as int)],
                    self.grid@.len() == GRID_WIDTH * GRID_HEIGHT,
                    forall|i: int|
                        0 <= i < GRID_WIDTH * GRID_HEIGHT ==> #[trigger] self.grid@[i] == (g0[i] != (
                        sprite_hits(m.memory, m.index, ox, oy, n, i) && (row_of(i, oy) < y || (
                        row_of(i, oy) == y && col_of(i, ox) < x)))),
                    collided == exists|i: int|
                        0 <= i < GRID_WIDTH * GRID_HEIGHT && g0[i] && #[trigger] sprite_hits(
                            m.memory,
                            m.index,
                            ox,
                            oy,
                            n,
                            i,
                        ) && (row_of(i, oy) < y || (row_of(i, oy) == y && col_of(i, ox) < x)),
                decreases 8 - x,
            {
                let ghost before = self.grid@;
                proof {
                    lemma_sprite_cell(ox, oy, x as int, y as int);
                }
                let cx = (ox as usize + x as usize) % GRID_WIDTH;
                let cy = (oy as usize + y as usize) % GRID_HEIGHT;
                let c = GRID_WIDTH * cy + cx;
                let ghost was_collided = collided;
                if (pixel >> (7 - x)) & 1 == 1 {
                    assert(sprite_bit(pixel, x as int));
                    assert(sprite_hits(m.memory, m.index, ox, oy, n, c as int));
                    if self.grid[c] {
                        self.grid.set(c, false);
                        collided = true;
                    } else {
                        self.grid.set(c, true);
                    }
                    assert(collided == exists|i: int|
                        0 <= i < GRID_WIDTH * GRID_HEIGHT && g0[i] && #[trigger] sprite_hits(
                            m.memory,
                            m.index,
                            ox,
                            oy,
                            n,
                            i,
                        ) && (row_of(i, oy) < y || (row_of(i, oy) == y && col_of(i, ox) < x + 1))) by {
                        if collided && !was_collided {
                            assert(g0[c as int]);
                        }
                    }
                } else {
                    assert(!sprite_bit(pixel, x as int));
                    assert forall|i: int|
                        0 <= i < GRID_WIDTH * GRID_HEIGHT && row_of(i, oy) == y && col_of(i, ox)
                            == x implies !#[trigger] sprite_hits(m.memory, m.index, ox, oy, n, i) by {}
                }
                x += 1;
            }
            y += 1;
        }
        assert(self.grid@ =~= drawn_grid(m, ox, oy, n));
        self.registers.set(15, if collided { 1u8 } else { 0u8 });
    }

    /// Stores registers `0..=r` at the index register, wrapping round memory.
    fn store_registers(&mut self, r: u8)
        requires
            old(self).wf(),
            r < 16,
        ensures
            final(self)@ == (MachineModel { memory: stored_memory(old(self)@, r), ..old(self)@ }),
            final(self).delay_clock == old(self).delay_clock,
            final(self).key_pressed == old(self).key_pressed,
    {
        let ghost m = self@;
        let mut i: u8 = 0;
        while i <= r
            invariant
                self@ == (MachineModel { memory: self.memory@, ..m }),
                self.delay_clock == old(self).delay_clock,
                self.key_pressed == old(self).key_pressed,
                m.wf(),
                r < 16,
                0 <= i <= r + 1,
                self.memory@.len() == MEMORY_SIZE,
                forall|a: int|
                    0 <= a < MEMORY_SIZE ==> #[trigger] self.memory@[a] == if (a - m.index) % (
                    MEMORY_SIZE as int) < i {
                        m.registers[(a - m.index) % (MEMORY_SIZE as int)]
                    } else {
                        m.memory[a]
                    },
            decreases r + 1 - i,
        {
            let a = (self.index_register as usize + i as usize) % MEMORY_SIZE;
            assert forall|b: int| 0 <= b < MEMORY_SIZE implies (#[trigger] ((b - m.index) % (
            MEMORY_SIZE as int)) == i) == (b == a) by {
                lemma_wrap_offset(b, m.index as int, i as int, MEMORY_SIZE as int);
            }
            let v = self.registers[i as usize];
            self.memory.set(a, v);
            i += 1;
        }
        assert(self.memory@ =~= stored_memory(m, r));
    }

    /// Loads registers `0..=r` from memory at the index register, wrapping
    /// round memory.
    fn load_registers(&mut self, r: u8)
        requires
            old(self).wf(),
            r < 16,
        ensures
            final(self)@ == (MachineModel {
                registers: loaded_registers(old(self)@, r),
                ..old(self)@
            }),
            final(self).delay_clock == old(self).delay_clock,
            final(self).key_pressed == old(self).key_pressed,
    {
        let ghost m = self@;
        let mut i: u8 = 0;
        while i <= r
            invariant
                self@ == (MachineModel { registers: self.registers@, ..m }),
                self.delay_clock == old(self).delay_clock,
                self.key_pressed == old(self).key_pressed,
                m.wf(),
                r < 16,
                0 <= i <= r + 1,
                self.registers@.len() == 16,
                forall|k: int|
                    0 <= k < 16 ==> #[trigger] self.registers@[k] == if k < i {
                        m.memory[addr(m.index as int, k)]
                    } else {
                        m.registers[k]
                    },
            decreases r + 1 - i,
        {
            let v = self.memory[(self.index_register as usize + i as usize) % MEMORY_SIZE];
            self.registers.set(i as usize, v);
            i += 1;
        }
        assert(self.registers@ =~= loaded_registers(m, r));
    }

    /// Executes `op` on the machine. `key_down` is the host's answer for the
    /// key that a key skip tests; `random` is the byte that a random draw
    /// masks. While a key wait is pending nothing changes.
    pub fn apply(&mut self, op: Opcode, key_down: bool, random: u8) -> (e: Event)
        requires
            old(self).wf(),
            op.wf(),
        ensures
            final(self).wf(),
            final(self)@ == old(self)@.executed(op, key_down, random),
            e == old(self)@.event_of(op),
            final(self).key_pad() == old(self).key_pad(),
    {
        if self.waiting_for_key.is_some() {
            return Event::Nothing;
        }
        self.draw_flag = false;
        let pc = self.program_counter;
        let next: u16 = (pc + 2) % (MEMORY_SIZE as u16);
        let skip: u16 = (pc + 4) % (MEMORY_SIZE as u16);
        match op {
            Opcode::Invalid => {
                return Event::Unrecognized;
            },
            Opcode::Add { r, value } => {
                let v = self.registers[r as usize];
                self.registers.set(r as usize, ((v as u16 + value as u16) % 256) as u8);
                self.program_counter = next;
            },
            Opcode::AddAddress { r } => {
                let v = self.registers[r as usize];
                self.index_register = ((self.index_register as u32 + v as u32) % 65536) as u16;
                self.program_counter = next;
            },
            Opcode::Assign { dst, src } => {
                let v = self.registers[src as usize];
                self.registers.set(dst as usize, v);
                self.program_counter = next;
            },
            Opcode::BitOpAnd { r1, r2 } => {
                let v = self.registers[r1 as usize] & self.registers[r2 as usize];
                self.registers.set(r1 as usize, v);
                self.program_counter = next;
            },
            Opcode::BitOpOr { r1, r2 } => {
                let v = self.registers[r1 as usize] | self.registers[r2 as usize];
                self.registers.set(r1 as usize, v);
                self.program_counter = next;
            },
            Opcode::BitOpXor { r1, r2 } => {
                let v = self.registers[r1 as usize] ^ self.registers[r2 as usize];
                self.registers.set(r1 as usize, v);
                self.program_counter = next;
            },
            Opcode::BitOpShiftL { r } => {
                let x = self.registers[r as usize];
                self.registers.set(15, x / 128);
                self.registers.set(r as usize, ((x as u16 * 2) % 256) as u8);
                self.program_counter = next;
            },
            Opcode::BitOpShiftR { r } => {
                let x = self.registers[r as usize];
                self.registers.set(15, x % 2);
                self.registers.set(r as usize, x / 2);
                self.program_counter = next;
            },
            Opcode::CallRca { .. } => {
                self.program_counter = next;
            },
            Opcode::CallSubroutine { address } => {
                self.stack.push(pc);
                self.program_counter = address;
            },
            Opcode::Clear => {
                self.grid = vec![false; GRID_WIDTH * GRID_HEIGHT];
                assert(self.grid@ =~= blank_grid());
                self.program_counter = next;
            },
            Opcode::CondEq { r, value } => {
                self.program_counter = if self.registers[r as usize] == value {
                    skip
                } else {
                    next
                };
            },
            Opcode::CondNe { r, value } => {
                self.program_counter = if self.registers[r as usize] != value {
                    skip
                } else {
                    next
                };
            },
            Opcode::CondVxVyEq { r1, r2 } => {
                self.program_counter = if self.registers[r1 as usize]
                    == self.registers[r2 as usize] {
                    skip
                } else {
                    next
                };
            },
            Opcode::CondVxVyNe { r1, r2 } => {
                self.program_counter = if self.registers[r1 as usize]
                    != self.registers[r2 as usize] {
                    skip
                } else {
                    next
                };
            },
            Opcode::CondKeyPressed { .. } => {
                self.program_counter = if key_down {
                    skip
                } else {
                    next
                };
            },
            Opcode::CondKeyReleased { .. } => {
                self.program_counter = if key_down {
                    next
                } else {
                    skip
                };
            },
            Opcode::DrawSprite { rx, ry, n } => {
                self.draw_sprite(rx, ry, n);
                self.draw_flag = true;
                self.program_counter = next;
            },
            Opcode::GetDelayTimer { r } => {
                self.registers.set(r as usize, self.delay_timer);
                self.program_counter = next;
            },
            Opcode::Goto { address } => {
                self.program_counter = address;
            },
            Opcode::Increment { r1, r2 } => {
                let sum = self.registers[r1 as usize] as u16 + self.registers[r2 as usize] as u16;
                self.registers.set(r1 as usize, (sum % 256) as u8);
                self.registers.set(15, if sum > 255 { 1u8 } else { 0u8 });
                self.program_counter = next;
            },
            Opcode::Jump { offset } => {
                let v0 = self.registers[0];
                self.program_counter = ((offset as usize + v0 as usize) % MEMORY_SIZE) as u16;
            },
            Opcode::LoadRegisters { r } => {
                self.load_registers(r);
                self.program_counter = next;
            },
            Opcode::Return => {
                match self.stack.pop() {
                    Some(ret) => {
                        self.program_counter = ((ret as usize + 2) % MEMORY_SIZE) as u16;
                    },
                    None => {
                        return Event::StackUnderflow;
                    },
                }
            },
            Opcode::SetRegister { r, value } => {
                self.registers.set(r as usize, value);
                self.program_counter = next;
            },
            Opcode::SetAddress { value } => {
                self.index_register = value;
                self.program_counter = next;
            },
            Opcode::SetBCD { r } => {
                let v = self.registers[r as usize];
                let i = self.index_register as usize;
                self.memory.set(i % MEMORY_SIZE, v / 100);
                self.memory.set((i + 1) % MEMORY_SIZE, (v % 100) / 10);
                self.memory.set((i + 2) % MEMORY_SIZE, v % 10);
                self.program_counter = next;
            },
            Opcode::SetDelayTimer { r } => {
                self.delay_timer = self.registers[r as usize];
                self.program_counter = next;
            },
            Opcode::SetRand { r, mask } => {
                self.registers.set(r as usize, random & mask);
                self.program_counter = next;
            },
            Opcode::SetSoundTimer { r } => {
                let v = self.registers[r as usize];
                self.sound_timer = v;
                self.program_counter = next;
                return Event::Tone { duration_ms: v as u32 * 1000 / 60 };
            },
            Opcode::SetSprite { r } => {
                self.index_register = self.registers[r as usize] as u16 * 5;
                self.program_counter = next;
            },
            Opcode::StoreRegisters { r } => {
                self.store_registers(r);
                self.program_counter = next;
            },
            Opcode::Sub { r1, r2 } => {
                let x = self.registers[r1 as usize];
                let y = self.registers[r2 as usize];
                self.registers.set(15, if x >= y { 1u8 } else { 0u8 });
                self.registers.set(r1 as usize, ((x as u16 + 256 - y as u16) % 256) as u8);
                self.program_counter = next;
            },
            Opcode::SubVyVx { r1, r2 } => {
                let x = self.registers[r1 as usize];
                let y = self.registers[r2 as usize];
                self.registers.set(15, if y >= x { 1u8 } else { 0u8 });
                self.registers.set(r1 as usize, ((y as u16 + 256 - x as u16) % 256) as u8);
                self.program_counter = next;
            },
            Opcode::WaitKeyPressed { r } => {
                self.waiting_for_key = Some(r);
                self.program_counter = next;
            },
        }
        Event::Nothing
    }

    /// The host's answer for the key whose code is `code`: false where no
    /// keypad was given or the code names no key.
    fn key_down(&self, code: u8) -> (r: bool)
        ensures
            self.key_pad() is None ==> !r,
            code >= 16 ==> !r,
    {
        match Key::from_code(code) {
            Some(k) => match &self.key_pressed {
                Some(pad) => pad.is_key_down(k),
                None => false,
            },
            None => false,
        }
    }

    /// Executes `op`, asking the keypad for a key skip and drawing a random
    /// byte for a random draw. The result is `apply` for whatever answer and
    /// byte came back; with no keypad every key reads as released.
    pub fn execute(&mut self, op: Opcode) -> (e: Event)
        requires
            old(self).wf(),
            op.wf(),
        ensures
            final(self).wf(),
            exists|key_down: bool, random: u8|
                final(self)@ == old(self)@.executed(op, key_down, random),
            old(self).key_pad() is None ==> exists|random: u8|
                final(self)@ == old(self)@.executed(op, false, random),
            e == old(self)@.event_of(op),
            final(self).key_pad() == old(self).key_pad(),
    {
        let key_down = match op {
            Opcode::CondKeyPressed { r } | Opcode::CondKeyReleased { r } => {
                let code = self.registers[r as usize];
                self.key_down(code)
            },
            _ => false,
        };
        let random = match op {
            Opcode::SetRand { .. } => random_byte(),
            _ => 0u8,
        };
        self.apply(op, key_down, random)
    }

    /// Counts the timers down by one if either is running and at least
    /// `TIMER_PERIOD_MS` have passed since the last decrement; the clock is
    /// then restarted.
    pub fn advance_timers(&mut self, elapsed_ms: Option<u128>)
        requires
            old(self).wf(),
        ensures
            final(self).wf(),
            final(self)@ == old(self)@.timers_advanced(elapsed_ms),
            final(self).key_pad() == old(self).key_pad(),
    {
        if self.delay_timer > 0 || self.sound_timer > 0 {
            if let Some(ms) = elapsed_ms {
                if ms >= TIMER_PERIOD_MS {
                    if self.delay_timer > 0 {
                        self.delay_timer = self.delay_timer - 1;
                    }
                    if self.sound_timer > 0 {
                        self.sound_timer = self.sound_timer - 1;
                    }
                    self.delay_clock = clock_now();
                }
            }
        }
    }

    /// One cycle: advance the timers by the wall clock, then decode and
    /// execute the instruction at the program counter.
    pub fn tick(&mut self) -> (e: Event)
        requires
            old(self).wf(),
        ensures
            final(self).wf(),
            final(self).key_pad() == old(self).key_pad(),
            exists|elapsed_ms: Option<u128>, key_down: bool, random: u8|
                final(self)@ == #[trigger] old(self)@.ticked(elapsed_ms, key_down, random) && e
                    == old(self)@.tick_event(elapsed_ms),
    {
        let elapsed = if self.delay_timer > 0 || self.sound_timer > 0 {
            millis_since(&self.delay_clock)
        } else {
            None
        };
        self.advance_timers(elapsed);
        let ghost t = self@;
        let op = self.decode_next_instruction();
        let e = self.execute(op);
        let ghost (kd, rb) = choose|kd: bool, rb: u8| self@ == t.executed(op, kd, rb);
        assert(t == old(self)@.timers_advanced(elapsed));
        assert(self@ == old(self)@.ticked(elapsed, kd, rb) && e == old(self)@.tick_event(elapsed));
        e
    }

    /// Whether the last executed instruction drew on the framebuffer.
    pub fn has_drawn(&self) -> (r: bool)
        ensures
            r == self@.drawn,
    {
        self.draw_flag
    }

    /// A key-press notification: resolves a pending key wait by writing the
    /// key's code into the waiting register; otherwise nothing changes.
    pub fn on_key_pressed(&mut self, key: Key)
        requires
            old(self).wf(),
        ensures
            final(self).wf(),
            final(self)@ == old(self)@.key_pressed(key),
            final(self).key_pad() == old(self).key_pad(),
    {
        if let Some(register) = self.waiting_for_key {
            self.registers.set(register as usize, key.code());
            self.waiting_for_key = None;
        }
    }

    /// Gives the machine the keypad that its key skips ask.
    pub fn set_key_callback(&mut self, callback: K)
        ensures
            final(self)@ == old(self)@,
            final(self).key_pad() == Some(callback),
    {
        self.key_pressed = Some(callback);
    }

    /// The framebuffer, row-major, `GRID_WIDTH` cells a row.
    pub fn grid(&self) -> (r: &Vec<bool>)
        ensures
            r@ == self@.grid,
    {
        &self.grid
    }

    /// Register `r`.
    pub fn register(&self, r: u8) -> (v: u8)
        requires
            self.wf(),
            r < 16,
        ensures
            v == self@.reg(r),
    {
        self.registers[r as usize]
    }

    /// The byte at memory address `a`.
    pub fn memory_at(&self, a: u16) -> (v: u8)
        requires
            self.wf(),
            a < MEMORY_SIZE,
        ensures
            v == self@.memory[a as int],
    {
        self.memory[a as usize]
    }

    /// The program counter.
    pub fn program_counter(&self) -> (v: u16)
        ensures
            v == self@.pc,
    {
        self.program_counter
    }

    /// The index register.
    pub fn index_register(&self) -> (v: u16)
        ensures
            v == self@.index,
    {
        self.index_register
    }

    /// The delay timer.
    pub fn delay_timer(&self) -> (v: u8)
        ensures
            v == self@.delay_timer,
    {
        self.delay_timer
    }

    /// The sound timer.
    pub fn sound_timer(&self) -> (v: u8)
        ensures
            v == self@.sound_timer,
    {
        self.sound_timer
    }

    /// The register that a pending key wait will fill, if any.
    pub fn waiting_for_key(&self) -> (v: Option<u8>)
        ensures
            v == self@.waiting_for_key,
    {
        self.waiting_for_key
    }

    /// How many return addresses the call stack holds.
    pub fn stack_depth(&self) -> (v: usize)
        ensures
            v == self@.stack.len(),
    {
        self.stack.len()
    }
}

} // verus!
