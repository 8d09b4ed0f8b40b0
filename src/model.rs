use vstd::prelude::*;
use crate::keys::{Key, key_code};
use crate::opcodes::{Opcode, decode_spec};

verus! {

/// Bytes of memory.
pub const MEMORY_SIZE: usize = 4096;

/// Where a program image is loaded.
pub const PROGRAM_START: usize = 512;

/// Framebuffer width in cells.
pub const GRID_WIDTH: usize = 64;

/// Framebuffer height in cells.
pub const GRID_HEIGHT: usize = 32;

/// Milliseconds between two timer decrements (60 Hz).
pub const TIMER_PERIOD_MS: u128 = 16;

/// The abstract machine: what a `Chip8State` holds, as mathematical values.
pub struct MachineModel {
    pub memory: Seq<u8>,
    pub registers: Seq<u8>,
    pub index: u16,
    pub pc: u16,
    pub stack: Seq<u16>,
    pub grid: Seq<bool>,
    pub delay_timer: u8,
    pub sound_timer: u8,
    pub waiting_for_key: Option<u8>,
    pub drawn: bool,
}

/// What one execution step reports to the host.
#[derive(Debug, Clone, Copy, PartialEq, Eq, Structural)]
pub enum Event {
    /// Nothing to report.
    Nothing,
    /// The sound timer was set: play a tone for this many milliseconds.
    Tone { duration_ms: u32 },
    /// The word at the program counter names no operation; nothing changed.
    Unrecognized,
    /// A return with an empty call stack; nothing changed.
    StackUnderflow,
}

/// The built-in font: sixteen glyphs of five bytes, for the digits 0 to F.
pub open spec fn font() -> Seq<u8> {
    seq![
        0xF0, 0x90, 0x90, 0x90, 0xF0, 0x20, 0x60, 0x20, 0x20, 0x70,
        0xF0, 0x10, 0xF0, 0x80, 0xF0, 0xF0, 0x10, 0xF0, 0x10, 0xF0,
        0x90, 0x90, 0xF0, 0x10, 0x10, 0xF0, 0x80, 0xF0, 0x10, 0xF0,
        0xF0, 0x80, 0xF0, 0x90, 0xF0, 0xF0, 0x10, 0x20, 0x40, 0x40,
        0xF0, 0x90, 0xF0, 0x90, 0xF0, 0xF0, 0x90, 0xF0, 0x10, 0xF0,
        0xF0, 0x90, 0xF0, 0x90, 0x90, 0xE0, 0x90, 0xE0, 0x90, 0xE0,
        0xF0, 0x80, 0x80, 0x80, 0xF0, 0xE0, 0x90, 0x90, 0x90, 0xE0,
        0xF0, 0x80, 0xF0, 0x80, 0xF0, 0xF0, 0x80, 0xF0, 0x80, 0x80,
    ]
}

/// Memory at start-up: the font, then zeros, the program at `PROGRAM_START`,
/// and zeros after it.
pub open spec fn initial_memory(program: Seq<u8>) -> Seq<u8> {
    Seq::new(
        MEMORY_SIZE as nat,
        |a: int|
            if a < 80 {
                font()[a]
            } else if PROGRAM_START <= a < PROGRAM_START + program.len() {
                program[a - PROGRAM_START]
            } else {
                0u8
            },
    )
}

/// The machine as a program image starts it.
pub open spec fn initial_model(program: Seq<u8>) -> MachineModel {
    MachineModel {
        memory: initial_memory(program),
        registers: Seq::new(16, |i: int| 0u8),
        index: 0,
        pc: PROGRAM_START as u16,
        stack: Seq::empty(),
        grid: blank_grid(),
        delay_timer: 0,
        sound_timer: 0,
        waiting_for_key: None,
        drawn: false,
    }
}

/// A framebuffer with every cell off.
pub open spec fn blank_grid() -> Seq<bool> {
    Seq::new((GRID_WIDTH * GRID_HEIGHT) as nat, |i: int| false)
}

/// The memory address `k` bytes past `base`, wrapped into memory.
pub open spec fn addr(base: int, k: int) -> int {
    (base + k) % (MEMORY_SIZE as int)
}

/// Bit `col` of a sprite row, counted from the left (bit 7 is column 0).
pub open spec fn sprite_bit(row: u8, col: int) -> bool {
    (row >> ((7 - col) as u8)) & 1u8 == 1u8
}

/// The sprite column that falls on grid cell `i`, for a sprite at `ox`.
pub open spec fn col_of(i: int, ox: u8) -> int {
    (i % (GRID_WIDTH as int) - ox) % (GRID_WIDTH as int)
}

/// The sprite row that falls on grid cell `i`, for a sprite at `oy`.
pub open spec fn row_of(i: int, oy: u8) -> int {
    (i / (GRID_WIDTH as int) - oy) % (GRID_HEIGHT as int)
}

/// Whether a set bit of the `n`-row sprite at `index`, drawn at `(ox, oy)`,
/// falls on grid cell `i` (coordinates wrap round the grid).
pub open spec fn sprite_hits(memory: Seq<u8>, index: u16, ox: u8, oy: u8, n: u8, i: int) -> bool {
    let col = col_of(i, ox);
    let row = row_of(i, oy);
    col < 8 && row < n && sprite_bit(memory[addr(index as int, row)], col)
}

/// The grid after XOR-drawing the sprite.
pub open spec fn drawn_grid(m: MachineModel, ox: u8, oy: u8, n: u8) -> Seq<bool> {
    Seq::new(
        m.grid.len(),
        |i: int| m.grid[i] != sprite_hits(m.memory, m.index, ox, oy, n, i),
    )
}

/// Whether drawing the sprite turns some lit cell off.
pub open spec fn draw_collides(m: MachineModel, ox: u8, oy: u8, n: u8) -> bool {
    exists|i: int|
        0 <= i < m.grid.len() && m.grid[i] && #[trigger] sprite_hits(
            m.memory,
            m.index,
            ox,
            oy,
            n,
            i,
        )
}

/// Memory after storing registers `0..=r` at the index register.
pub open spec fn stored_memory(m: MachineModel, r: u8) -> Seq<u8> {
    Seq::new(
        m.memory.len(),
        |a: int|
            {
                let d = (a - m.index) % (MEMORY_SIZE as int);
                if d <= r {
                    m.registers[d]
                } else {
                    m.memory[a]
                }
            },
    )
}

/// Registers after loading `0..=r` from memory at the index register.
pub open spec fn loaded_registers(m: MachineModel, r: u8) -> Seq<u8> {
    Seq::new(
        16,
        |i: int|
            if i <= r {
                m.memory[addr(m.index as int, i)]
            } else {
                m.registers[i]
            },
    )
}

/// Whether a timer period has passed, given the milliseconds since the last
/// decrement.
pub open spec fn period_elapsed(elapsed_ms: Option<u128>) -> bool {
    elapsed_ms matches Some(ms) && ms >= TIMER_PERIOD_MS
}

/// The tone length requested for a sound-timer value: `value * 1000 / 60` ms.
pub open spec fn tone_ms(value: u8) -> u32 {
    (value * 1000 / 60) as u32
}

impl MachineModel {
    /// The sizes are fixed, the counter points into memory, and a pending
    /// wait names a register.
    pub open spec fn wf(self) -> bool {
        &&& self.memory.len() == MEMORY_SIZE
        &&& self.registers.len() == 16
        &&& self.grid.len() == GRID_WIDTH * GRID_HEIGHT
        &&& self.pc < MEMORY_SIZE
        &&& self.waiting_for_key matches Some(r) ==> r < 16
    }

    /// The instruction word at the program counter (big-endian).
    pub open spec fn word_at_pc(self) -> u16 {
        (self.memory[self.pc as int] * 256 + self.memory[addr(self.pc as int, 1)]) as u16
    }

    /// The operation at the program counter.
    pub open spec fn next_op(self) -> Opcode {
        decode_spec(self.word_at_pc())
    }

    /// The counter moved on by `k` bytes, wrapped into memory.
    pub open spec fn advanced(self, k: int) -> u16 {
        addr(self.pc as int, k) as u16
    }

    /// Register `r`.
    pub open spec fn reg(self, r: u8) -> u8 {
        self.registers[r as int]
    }

    /// The counter after a skip test: past the next instruction when `cond`.
    pub open spec fn skip_if(self, cond: bool) -> u16 {
        if cond {
            self.advanced(4)
        } else {
            self.advanced(2)
        }
    }

    /// Register `r` set to `v`, the counter moved to the next instruction.
    pub open spec fn with_reg(self, r: u8, v: u8) -> MachineModel {
        MachineModel { registers: self.registers.update(r as int, v), pc: self.advanced(2), ..self }
    }

    /// Register `r` set to `v` after the flag register was set to `flag`.
    pub open spec fn with_flag_then_reg(self, flag: u8, r: u8, v: u8) -> MachineModel {
        MachineModel {
            registers: self.registers.update(15, flag).update(r as int, v),
            pc: self.advanced(2),
            ..self
        }
    }

    /// The effect of a key press: it resolves a pending wait, and does
    /// nothing otherwise.
    pub open spec fn key_pressed(self, key: Key) -> MachineModel {
        match self.waiting_for_key {
            Some(r) => MachineModel {
                registers: self.registers.update(r as int, key_code(key)),
                waiting_for_key: None,
                ..self
            },
            None => self,
        }
    }

    /// The timers after one advance, given the milliseconds since the last
    /// decrement (`None` where the clock could not say).
    pub open spec fn timers_advanced(self, elapsed_ms: Option<u128>) -> MachineModel {
        let due = (self.delay_timer > 0 || self.sound_timer > 0) && period_elapsed(elapsed_ms);
        if due {
            MachineModel {
                delay_timer: if self.delay_timer > 0 {
                    (self.delay_timer - 1) as u8
                } else {
                    0
                },
                sound_timer: if self.sound_timer > 0 {
                    (self.sound_timer - 1) as u8
                } else {
                    0
                },
                ..self
            }
        } else {
            self
        }
    }

    /// The machine after executing `op`. `key_down` is the host's answer for
    /// the key that a key skip tests, `random` the byte that a random draw got.
    /// While a key wait is pending nothing changes.
    pub open spec fn executed(self, op: Opcode, key_down: bool, random: u8) -> MachineModel {
        if self.waiting_for_key is Some {
            self
        } else {
            let m = MachineModel { drawn: false, ..self };
            match op {
                Opcode::Invalid => m,
                Opcode::Add { r, value } => m.with_reg(r, ((m.reg(r) + value) % 256) as u8),
                Opcode::AddAddress { r } => MachineModel {
                    index: ((m.index + m.reg(r)) % 65536) as u16,
                    pc: m.advanced(2),
                    ..m
                },
                Opcode::Assign { dst, src } => m.with_reg(dst, m.reg(src)),
                Opcode::BitOpAnd { r1, r2 } => m.with_reg(r1, m.reg(r1) & m.reg(r2)),
                Opcode::BitOpOr { r1, r2 } => m.with_reg(r1, m.reg(r1) | m.reg(r2)),
                Opcode::BitOpXor { r1, r2 } => m.with_reg(r1, m.reg(r1) ^ m.reg(r2)),
                Opcode::BitOpShiftL { r } => m.with_flag_then_reg(
                    m.reg(r) / 128,
                    r,
                    ((m.reg(r) * 2) % 256) as u8,
                ),
                Opcode::BitOpShiftR { r } => m.with_flag_then_reg(m.reg(r) % 2, r, m.reg(r) / 2),
                Opcode::CallRca { .. } => MachineModel { pc: m.advanced(2), ..m },
                Opcode::CallSubroutine { address } => MachineModel {
                    stack: m.stack.push(m.pc),
                    pc: address,
                    ..m
                },
                Opcode::Clear => MachineModel { grid: blank_grid(), pc: m.advanced(2), ..m },
                Opcode::CondEq { r, value } => MachineModel {
                    pc: m.skip_if(m.reg(r) == value),
                    ..m
                },
                Opcode::CondNe { r, value } => MachineModel {
                    pc: m.skip_if(m.reg(r) != value),
                    ..m
                },
                Opcode::CondVxVyEq { r1, r2 } => MachineModel {
                    pc: m.skip_if(m.reg(r1) == m.reg(r2)),
                    ..m
                },
                Opcode::CondVxVyNe { r1, r2 } => MachineModel {
                    pc: m.skip_if(m.reg(r1) != m.reg(r2)),
                    ..m
                },
                Opcode::CondKeyPressed { .. } => MachineModel { pc: m.skip_if(key_down), ..m },
                Opcode::CondKeyReleased { .. } => MachineModel { pc: m.skip_if(!key_down), ..m },
                Opcode::DrawSprite { rx, ry, n } => {
                    let ox = m.reg(rx);
                    let oy = m.reg(ry);
                    MachineModel {
                        grid: drawn_grid(m, ox, oy, n),
                        registers: m.registers.update(
                            15,
                            if draw_collides(m, ox, oy, n) {
                                1u8
                            } else {
                                0u8
                            },
                        ),
                        drawn: true,
                        pc: m.advanced(2),
                        ..m
                    }
                },
                Opcode::GetDelayTimer { r } => m.with_reg(r, m.delay_timer),
                Opcode::Goto { address } => MachineModel { pc: address, ..m },
                Opcode::Increment { r1, r2 } => {
                    let sum = m.reg(r1) + m.reg(r2);
                    MachineModel {
                        registers: m.registers.update(r1 as int, (sum % 256) as u8).update(
                            15,
                            if sum > 255 {
                                1u8
                            } else {
                                0u8
                            },
                        ),
                        pc: m.advanced(2),
                        ..m
                    }
                },
                Opcode::Jump { offset } => MachineModel {
                    pc: addr(offset as int, m.reg(0) as int) as u16,
                    ..m
                },
                Opcode::LoadRegisters { r } => MachineModel {
                    registers: loaded_registers(m, r),
                    pc: m.advanced(2),
                    ..m
                },
                Opcode::Return => {
                    if m.stack.len() == 0 {
                        m
                    } else {
                        MachineModel {
                            pc: addr(m.stack.last() as int, 2) as u16,
                            stack: m.stack.drop_last(),
                            ..m
                        }
                    }
                },
                Opcode::SetRegister { r, value } => m.with_reg(r, value),
                Opcode::SetAddress { value } => MachineModel { index: value, pc: m.advanced(2), ..m },
                Opcode::SetBCD { r } => {
                    let v = m.reg(r);
                    let i = m.index as int;
                    MachineModel {
                        memory: m.memory.update(addr(i, 0), v / 100).update(
                            addr(i, 1),
                            (v % 100) / 10,
                        ).update(addr(i, 2), v % 10),
                        pc: m.advanced(2),
                        ..m
                    }
                },
                Opcode::SetDelayTimer { r } => MachineModel {
                    delay_timer: m.reg(r),
                    pc: m.advanced(2),
                    ..m
                },
                Opcode::SetRand { r, mask } => m.with_reg(r, random & mask),
                Opcode::SetSoundTimer { r } => MachineModel {
                    sound_timer: m.reg(r),
                    pc: m.advanced(2),
                    ..m
                },
                Opcode::SetSprite { r } => MachineModel {
                    index: (m.reg(r) * 5) as u16,
                    pc: m.advanced(2),
                    ..m
                },
                Opcode::StoreRegisters { r } => MachineModel {
                    memory: stored_memory(m, r),
                    pc: m.advanced(2),
                    ..m
                },
                Opcode::Sub { r1, r2 } => {
                    let x = m.reg(r1);
                    let y = m.reg(r2);
                    m.with_flag_then_reg(
                        if x >= y {
                            1
                        } else {
                            0
                        },
                        r1,
                        ((x - y + 256) % 256) as u8,
                    )
                },
                Opcode::SubVyVx { r1, r2 } => {
                    let x = m.reg(r1);
                    let y = m.reg(r2);
                    m.with_flag_then_reg(
                        if y >= x {
                            1
                        } else {
                            0
                        },
                        r1,
                        ((y - x + 256) % 256) as u8,
                    )
                },
                Opcode::WaitKeyPressed { r } => MachineModel {
                    waiting_for_key: Some(r),
                    pc: m.advanced(2),
                    ..m
                },
            }
        }
    }

    /// The machine after one cycle: the timers advanced, then the
    /// instruction at the counter executed.
    pub open spec fn ticked(self, elapsed_ms: Option<u128>, key_down: bool, random: u8) -> MachineModel {
        let t = self.timers_advanced(elapsed_ms);
        t.executed(t.next_op(), key_down, random)
    }

    /// What one cycle reports.
    pub open spec fn tick_event(self, elapsed_ms: Option<u128>) -> Event {
        let t = self.timers_advanced(elapsed_ms);
        t.event_of(t.next_op())
    }

    /// What executing `op` reports.
    pub open spec fn event_of(self, op: Opcode) -> Event {
        if self.waiting_for_key is Some {
            Event::Nothing
        } else {
            match op {
                Opcode::Invalid => Event::Unrecognized,
                Opcode::Return => if self.stack.len() == 0 {
                    Event::StackUnderflow
                } else {
                    Event::Nothing
                },
                Opcode::SetSoundTimer { r } => Event::Tone { duration_ms: tone_ms(self.reg(r)) },
                _ => Event::Nothing,
            }
        }
    }
}

} // verus!
