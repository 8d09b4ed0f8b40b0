use chip8::keys::{Key, KeyPad};
use chip8::model::{Event, GRID_WIDTH};
use chip8::opcodes::{decode, Opcode};
use chip8::state::Chip8State;

struct NoKeys;

impl KeyPad for NoKeys {
    fn is_key_down(&self, _key: Key) -> bool {
        false
    }
}

struct OnlyKey(Key);

impl KeyPad for OnlyKey {
    fn is_key_down(&self, key: Key) -> bool {
        key == self.0
    }
}

fn machine(program: Vec<u8>) -> Chip8State<NoKeys> {
    Chip8State::new(program)
}

fn set(m: &mut Chip8State<NoKeys>, r: u8, value: u8) {
    assert_eq!(m.apply(Opcode::SetRegister { r, value }, false, 0), Event::Nothing);
}

#[test]
fn new_loads_font_and_program() {
    let m = machine(vec![0x12, 0x34, 0xAB]);
    assert_eq!(m.memory_at(0), 0xF0);
    assert_eq!(m.memory_at(5), 0x20);
    assert_eq!(m.memory_at(79), 0x80);
    assert_eq!(m.memory_at(80), 0);
    assert_eq!(m.memory_at(511), 0);
    assert_eq!(m.memory_at(512), 0x12);
    assert_eq!(m.memory_at(513), 0x34);
    assert_eq!(m.memory_at(514), 0xAB);
    assert_eq!(m.memory_at(515), 0);
    assert_eq!(m.program_counter(), 512);
    assert_eq!(m.index_register(), 0);
    assert_eq!(m.delay_timer(), 0);
    assert_eq!(m.sound_timer(), 0);
    assert_eq!(m.waiting_for_key(), None);
    assert_eq!(m.stack_depth(), 0);
    assert!(!m.has_drawn());
    assert_eq!(m.grid().len(), 2048);
    assert!(m.grid().iter().all(|c| !*c));
}

#[test]
fn decode_families() {
    assert_eq!(decode(0x00E0), Opcode::Clear);
    assert_eq!(decode(0x00EE), Opcode::Return);
    assert_eq!(decode(0x0123), Opcode::CallRca { address: 0x123 });
    assert_eq!(decode(0x1ABC), Opcode::Goto { address: 0xABC });
    assert_eq!(decode(0x2ABC), Opcode::CallSubroutine { address: 0xABC });
    assert_eq!(decode(0x3A12), Opcode::CondEq { r: 0xA, value: 0x12 });
    assert_eq!(decode(0x4A12), Opcode::CondNe { r: 0xA, value: 0x12 });
    assert_eq!(decode(0x5AB0), Opcode::CondVxVyEq { r1: 0xA, r2: 0xB });
    assert_eq!(decode(0x6A12), Opcode::SetRegister { r: 0xA, value: 0x12 });
    assert_eq!(decode(0x7A12), Opcode::Add { r: 0xA, value: 0x12 });
    assert_eq!(decode(0x8AB0), Opcode::Assign { dst: 0xA, src: 0xB });
    assert_eq!(decode(0x8AB1), Opcode::BitOpOr { r1: 0xA, r2: 0xB });
    assert_eq!(decode(0x8AB2), Opcode::BitOpAnd { r1: 0xA, r2: 0xB });
    assert_eq!(decode(0x8AB3), Opcode::BitOpXor { r1: 0xA, r2: 0xB });
    assert_eq!(decode(0x8AB4), Opcode::Increment { r1: 0xA, r2: 0xB });
    assert_eq!(decode(0x8AB5), Opcode::Sub { r1: 0xA, r2: 0xB });
    assert_eq!(decode(0x8AB6), Opcode::BitOpShiftR { r: 0xA });
    assert_eq!(decode(0x8AB7), Opcode::SubVyVx { r1: 0xA, r2: 0xB });
    assert_eq!(decode(0x8ABE), Opcode::BitOpShiftL { r: 0xA });
    assert_eq!(decode(0x9AB0), Opcode::CondVxVyNe { r1: 0xA, r2: 0xB });
    assert_eq!(decode(0xA123), Opcode::SetAddress { value: 0x123 });
    assert_eq!(decode(0xB123), Opcode::Jump { offset: 0x123 });
    assert_eq!(decode(0xC3F0), Opcode::SetRand { r: 3, mask: 0xF0 });
    assert_eq!(decode(0xD125), Opcode::DrawSprite { rx: 1, ry: 2, n: 5 });
    assert_eq!(decode(0xE59E), Opcode::CondKeyPressed { r: 5 });
    assert_eq!(decode(0xE5A1), Opcode::CondKeyReleased { r: 5 });
    assert_eq!(decode(0xF507), Opcode::GetDelayTimer { r: 5 });
    assert_eq!(decode(0xF50A), Opcode::WaitKeyPressed { r: 5 });
    assert_eq!(decode(0xF515), Opcode::SetDelayTimer { r: 5 });
    assert_eq!(decode(0xF518), Opcode::SetSoundTimer { r: 5 });
    assert_eq!(decode(0xF51E), Opcode::AddAddress { r: 5 });
    assert_eq!(decode(0xF529), Opcode::SetSprite { r: 5 });
    assert_eq!(decode(0xF533), Opcode::SetBCD { r: 5 });
    assert_eq!(decode(0xF555), Opcode::StoreRegisters { r: 5 });
    assert_eq!(decode(0xF565), Opcode::LoadRegisters { r: 5 });
}

#[test]
fn decode_unrecognized_patterns() {
    assert_eq!(decode(0x8AB8), Opcode::Invalid);
    assert_eq!(decode(0x8ABF), Opcode::Invalid);
    assert_eq!(decode(0xE500), Opcode::Invalid);
    assert_eq!(decode(0xF5FF), Opcode::Invalid);
}

#[test]
fn copy_delay_timer_after_set_register() {
    let mut m = machine(vec![]);
    set(&mut m, 4, 42);
    m.apply(Opcode::SetDelayTimer { r: 4 }, false, 0);
    set(&mut m, 3, 9);
    assert_eq!(m.register(3), 9);
    m.apply(Opcode::GetDelayTimer { r: 3 }, false, 0);
    assert_eq!(m.register(3), 42);
    assert_eq!(m.delay_timer(), 42);
}

#[test]
fn add_registers_overflow_sets_flag() {
    let mut m = machine(vec![]);
    set(&mut m, 1, 250);
    set(&mut m, 2, 10);
    m.apply(Opcode::Increment { r1: 1, r2: 2 }, false, 0);
    assert_eq!(m.register(15), 1);
    assert_eq!(m.register(1), 4);
    set(&mut m, 1, 20);
    m.apply(Opcode::Increment { r1: 1, r2: 2 }, false, 0);
    assert_eq!(m.register(15), 0);
    assert_eq!(m.register(1), 30);
}

#[test]
fn subtract_borrow_clears_flag() {
    let mut m = machine(vec![]);
    set(&mut m, 1, 5);
    set(&mut m, 2, 10);
    m.apply(Opcode::Sub { r1: 1, r2: 2 }, false, 0);
    assert_eq!(m.register(15), 0);
    assert_eq!(m.register(1), 251);
}

#[test]
fn subtract_equal_sets_flag() {
    let mut m = machine(vec![]);
    set(&mut m, 1, 7);
    set(&mut m, 2, 7);
    m.apply(Opcode::Sub { r1: 1, r2: 2 }, false, 0);
    assert_eq!(m.register(15), 1);
    assert_eq!(m.register(1), 0);
}

#[test]
fn reverse_subtract() {
    let mut m = machine(vec![]);
    set(&mut m, 1, 10);
    set(&mut m, 2, 5);
    m.apply(Opcode::SubVyVx { r1: 1, r2: 2 }, false, 0);
    assert_eq!(m.register(15), 0);
    assert_eq!(m.register(1), 251);
    set(&mut m, 1, 3);
    m.apply(Opcode::SubVyVx { r1: 1, r2: 2 }, false, 0);
    assert_eq!(m.register(15), 1);
    assert_eq!(m.register(1), 2);
}

#[test]
fn add_immediate_wraps_without_flag() {
    let mut m = machine(vec![]);
    set(&mut m, 15, 9);
    set(&mut m, 0, 200);
    m.apply(Opcode::Add { r: 0, value: 100 }, false, 0);
    assert_eq!(m.register(0), 44);
    assert_eq!(m.register(15), 9);
    assert_eq!(m.program_counter(), 512 + 6);
}

#[test]
fn bitwise_and_shifts() {
    let mut m = machine(vec![]);
    set(&mut m, 1, 0b1100_1010);
    set(&mut m, 2, 0b1010_0110);
    m.apply(Opcode::BitOpAnd { r1: 1, r2: 2 }, false, 0);
    assert_eq!(m.register(1), 0b1000_0010);
    m.apply(Opcode::BitOpOr { r1: 1, r2: 2 }, false, 0);
    assert_eq!(m.register(1), 0b1010_0110);
    set(&mut m, 1, 0b1111_0000);
    m.apply(Opcode::BitOpXor { r1: 1, r2: 2 }, false, 0);
    assert_eq!(m.register(1), 0b0101_0110);
    set(&mut m, 3, 0b1000_0001);
    m.apply(Opcode::BitOpShiftL { r: 3 }, false, 0);
    assert_eq!(m.register(3), 0b0000_0010);
    assert_eq!(m.register(15), 1);
    m.apply(Opcode::BitOpShiftR { r: 3 }, false, 0);
    assert_eq!(m.register(3), 0b0000_0001);
    assert_eq!(m.register(15), 0);
    m.apply(Opcode::BitOpShiftR { r: 3 }, false, 0);
    assert_eq!(m.register(3), 0);
    assert_eq!(m.register(15), 1);
    m.apply(Opcode::Assign { dst: 4, src: 2 }, false, 0);
    assert_eq!(m.register(4), 0b1010_0110);
}

#[test]
fn conditional_skips() {
    let mut m = machine(vec![]);
    set(&mut m, 1, 7);
    set(&mut m, 2, 7);
    let pc = m.program_counter();
    m.apply(Opcode::CondEq { r: 1, value: 7 }, false, 0);
    assert_eq!(m.program_counter(), pc + 4);
    m.apply(Opcode::CondEq { r: 1, value: 8 }, false, 0);
    assert_eq!(m.program_counter(), pc + 6);
    m.apply(Opcode::CondNe { r: 1, value: 8 }, false, 0);
    assert_eq!(m.program_counter(), pc + 10);
    m.apply(Opcode::CondVxVyEq { r1: 1, r2: 2 }, false, 0);
    assert_eq!(m.program_counter(), pc + 14);
    m.apply(Opcode::CondVxVyNe { r1: 1, r2: 2 }, false, 0);
    assert_eq!(m.program_counter(), pc + 16);
    m.apply(Opcode::CondKeyPressed { r: 1 }, true, 0);
    assert_eq!(m.program_counter(), pc + 20);
    m.apply(Opcode::CondKeyReleased { r: 1 }, true, 0);
    assert_eq!(m.program_counter(), pc + 22);
    m.apply(Opcode::CondKeyReleased { r: 1 }, false, 0);
    assert_eq!(m.program_counter(), pc + 26);
}

#[test]
fn key_skips_ask_the_keypad() {
    // SE V1 is key 7; SKP V1; (skipped); SKNP V1
    let mut m: Chip8State<OnlyKey> = Chip8State::new(vec![0x61, 0x07, 0xE1, 0x9E, 0x00, 0x00, 0xE1, 0xA1]);
    m.set_key_callback(OnlyKey(Key::Key7));
    m.tick();
    m.tick();
    assert_eq!(m.program_counter(), 512 + 6);
    m.tick();
    assert_eq!(m.program_counter(), 512 + 8);
}

#[test]
fn key_skips_without_keypad_read_released() {
    let mut m = machine(vec![0xE1, 0x9E, 0xE1, 0xA1]);
    m.tick();
    assert_eq!(m.program_counter(), 514);
    m.tick();
    assert_eq!(m.program_counter(), 518);
}

#[test]
fn draw_twice_restores_grid_and_reports_collision() {
    let mut m = machine(vec![]);
    set(&mut m, 1, 0);
    m.apply(Opcode::SetSprite { r: 1 }, false, 0);
    assert_eq!(m.index_register(), 0);
    m.apply(Opcode::DrawSprite { rx: 1, ry: 1, n: 5 }, false, 0);
    assert!(m.has_drawn());
    assert_eq!(m.register(15), 0);
    let g = m.grid();
    assert!(g[0] && g[1] && g[2] && g[3] && !g[4]);
    assert!(g[GRID_WIDTH] && !g[GRID_WIDTH + 1] && g[GRID_WIDTH + 3]);
    assert_eq!(g.iter().filter(|c| **c).count(), 14);
    m.apply(Opcode::DrawSprite { rx: 1, ry: 1, n: 5 }, false, 0);
    assert_eq!(m.register(15), 1);
    assert!(m.grid().iter().all(|c| !*c));
}

#[test]
fn draw_wraps_around_the_edges() {
    let mut m = machine(vec![]);
    set(&mut m, 1, 62);
    set(&mut m, 2, 31);
    set(&mut m, 3, 0);
    m.apply(Opcode::SetSprite { r: 3 }, false, 0);
    m.apply(Opcode::DrawSprite { rx: 1, ry: 2, n: 2 }, false, 0);
    let g = m.grid();
    // row 0 of glyph 0 (1111) at y = 31, x = 62, 63, 0, 1
    assert!(g[31 * 64 + 62] && g[31 * 64 + 63] && g[31 * 64] && g[31 * 64 + 1]);
    // row 1 (1001) at y = 0
    assert!(g[62] && !g[63] && !g[0] && g[1]);
    assert_eq!(g.iter().filter(|c| **c).count(), 6);
}

#[test]
fn draw_with_zero_rows_changes_nothing() {
    let mut m = machine(vec![]);
    set(&mut m, 15, 1);
    m.apply(Opcode::DrawSprite { rx: 0, ry: 0, n: 0 }, false, 0);
    assert_eq!(m.register(15), 0);
    assert!(m.has_drawn());
    assert!(m.grid().iter().all(|c| !*c));
    m.apply(Opcode::SetRegister { r: 0, value: 0 }, false, 0);
    assert!(!m.has_drawn());
}

#[test]
fn clear_twice() {
    let mut m = machine(vec![]);
    m.apply(Opcode::DrawSprite { rx: 0, ry: 0, n: 5 }, false, 0);
    m.apply(Opcode::Clear, false, 0);
    assert!(m.grid().iter().all(|c| !*c));
    assert_eq!(m.grid().len(), 2048);
    m.apply(Opcode::Clear, false, 0);
    assert!(m.grid().iter().all(|c| !*c));
    assert_eq!(m.grid().len(), 2048);
}

#[test]
fn wait_for_key_blocks_until_pressed() {
    // LD V1, K; LD V2, 0x33
    let mut m = machine(vec![0xF1, 0x0A, 0x62, 0x33]);
    assert_eq!(m.tick(), Event::Nothing);
    assert_eq!(m.waiting_for_key(), Some(1));
    assert_eq!(m.program_counter(), 514);
    for _ in 0..5 {
        m.tick();
        assert_eq!(m.program_counter(), 514);
        assert_eq!(m.register(2), 0);
        assert_eq!(m.register(1), 0);
    }
    m.on_key_pressed(Key::KeyB);
    assert_eq!(m.waiting_for_key(), None);
    assert_eq!(m.register(1), 11);
    m.tick();
    assert_eq!(m.register(2), 0x33);
    assert_eq!(m.program_counter(), 516);
}

#[test]
fn key_press_without_wait_changes_nothing() {
    let mut m = machine(vec![]);
    m.on_key_pressed(Key::Key3);
    assert_eq!(m.register(3), 0);
    assert_eq!(m.waiting_for_key(), None);
}

#[test]
fn call_and_return_round_trip() {
    // 0x200: CALL 0x206; 0x202: LD V1, 1; ...; 0x206: RET
    let mut m = machine(vec![0x22, 0x06, 0x61, 0x01, 0x00, 0x00, 0x00, 0xEE]);
    m.tick();
    assert_eq!(m.program_counter(), 0x206);
    assert_eq!(m.stack_depth(), 1);
    m.tick();
    assert_eq!(m.program_counter(), 0x202);
    assert_eq!(m.stack_depth(), 0);
    m.tick();
    assert_eq!(m.register(1), 1);
}

#[test]
fn return_on_empty_stack_is_reported() {
    let mut m = machine(vec![0x00, 0xEE]);
    assert_eq!(m.tick(), Event::StackUnderflow);
    assert_eq!(m.program_counter(), 512);
    assert_eq!(m.stack_depth(), 0);
}

#[test]
fn unrecognized_opcode_is_reported_in_place() {
    let mut m = machine(vec![0xFF, 0xFF]);
    assert_eq!(m.tick(), Event::Unrecognized);
    assert_eq!(m.program_counter(), 512);
    assert_eq!(m.tick(), Event::Unrecognized);
    assert_eq!(m.program_counter(), 512);
}

#[test]
fn jumps() {
    let mut m = machine(vec![]);
    m.apply(Opcode::Goto { address: 0x345 }, false, 0);
    assert_eq!(m.program_counter(), 0x345);
    set(&mut m, 0, 0x10);
    m.apply(Opcode::Jump { offset: 0x300 }, false, 0);
    assert_eq!(m.program_counter(), 0x310);
    set(&mut m, 0, 0xFF);
    m.apply(Opcode::Jump { offset: 0xFFF }, false, 0);
    assert_eq!(m.program_counter(), 0x0FE);
    m.apply(Opcode::CallRca { address: 0x123 }, false, 0);
    assert_eq!(m.program_counter(), 0x100);
}

#[test]
fn bcd_digits() {
    let mut m = machine(vec![]);
    set(&mut m, 5, 254);
    m.apply(Opcode::SetAddress { value: 0x300 }, false, 0);
    m.apply(Opcode::SetBCD { r: 5 }, false, 0);
    assert_eq!(m.memory_at(0x300), 2);
    assert_eq!(m.memory_at(0x301), 5);
    assert_eq!(m.memory_at(0x302), 4);
}

#[test]
fn bcd_wraps_round_memory() {
    let mut m = machine(vec![]);
    set(&mut m, 5, 137);
    m.apply(Opcode::SetAddress { value: 0xFFF }, false, 0);
    m.apply(Opcode::SetBCD { r: 5 }, false, 0);
    assert_eq!(m.memory_at(0xFFF), 1);
    assert_eq!(m.memory_at(0), 3);
    assert_eq!(m.memory_at(1), 7);
}

#[test]
fn store_and_load_registers() {
    let mut m = machine(vec![]);
    for r in 0..4u8 {
        set(&mut m, r, 10 + r);
    }
    set(&mut m, 4, 99);
    m.apply(Opcode::SetAddress { value: 0xFFE }, false, 0);
    m.apply(Opcode::StoreRegisters { r: 3 }, false, 0);
    assert_eq!(m.memory_at(0xFFE), 10);
    assert_eq!(m.memory_at(0xFFF), 11);
    assert_eq!(m.memory_at(0), 12);
    assert_eq!(m.memory_at(1), 13);
    assert_eq!(m.memory_at(2), 0x90);
    for r in 0..5u8 {
        set(&mut m, r, 0);
    }
    m.apply(Opcode::LoadRegisters { r: 2 }, false, 0);
    assert_eq!(m.register(0), 10);
    assert_eq!(m.register(1), 11);
    assert_eq!(m.register(2), 12);
    assert_eq!(m.register(3), 0);
}

#[test]
fn index_register_operations() {
    let mut m = machine(vec![]);
    set(&mut m, 2, 0xB);
    m.apply(Opcode::SetSprite { r: 2 }, false, 0);
    assert_eq!(m.index_register(), 55);
    set(&mut m, 3, 200);
    m.apply(Opcode::AddAddress { r: 3 }, false, 0);
    assert_eq!(m.index_register(), 255);
    m.apply(Opcode::SetAddress { value: 0xFFF }, false, 0);
    m.apply(Opcode::AddAddress { r: 3 }, false, 0);
    assert_eq!(m.index_register(), 0xFFF + 200);
}

#[test]
fn sound_timer_requests_a_tone() {
    let mut m = machine(vec![]);
    set(&mut m, 6, 60);
    assert_eq!(m.apply(Opcode::SetSoundTimer { r: 6 }, false, 0), Event::Tone { duration_ms: 1000 });
    assert_eq!(m.sound_timer(), 60);
    set(&mut m, 6, 255);
    assert_eq!(m.apply(Opcode::SetSoundTimer { r: 6 }, false, 0), Event::Tone { duration_ms: 4250 });
    set(&mut m, 6, 1);
    assert_eq!(m.apply(Opcode::SetSoundTimer { r: 6 }, false, 0), Event::Tone { duration_ms: 16 });
}

#[test]
fn random_byte_is_masked() {
    let mut m = machine(vec![]);
    m.apply(Opcode::SetRand { r: 2, mask: 0x0F }, false, 0xAB);
    assert_eq!(m.register(2), 0x0B);
    set(&mut m, 3, 0x55);
    m.execute(Opcode::SetRand { r: 3, mask: 0 });
    assert_eq!(m.register(3), 0);
    for _ in 0..20 {
        m.execute(Opcode::SetRand { r: 3, mask: 0xF0 });
        assert_eq!(m.register(3) & 0x0F, 0);
    }
}

#[test]
fn delay_timer_holds_at_zero() {
    let mut m = machine(vec![]);
    for _ in 0..5 {
        m.advance_timers(Some(1000));
        assert_eq!(m.delay_timer(), 0);
        assert_eq!(m.sound_timer(), 0);
    }
}

#[test]
fn timers_count_down_once_per_period() {
    let mut m = machine(vec![]);
    set(&mut m, 1, 2);
    set(&mut m, 2, 1);
    m.apply(Opcode::SetDelayTimer { r: 1 }, false, 0);
    m.apply(Opcode::SetSoundTimer { r: 2 }, false, 0);
    m.advance_timers(Some(15));
    assert_eq!(m.delay_timer(), 2);
    m.advance_timers(None);
    assert_eq!(m.delay_timer(), 2);
    m.advance_timers(Some(16));
    assert_eq!(m.delay_timer(), 1);
    assert_eq!(m.sound_timer(), 0);
    m.advance_timers(Some(40));
    assert_eq!(m.delay_timer(), 0);
    m.advance_timers(Some(40));
    assert_eq!(m.delay_timer(), 0);
}

#[test]
fn key_codes() {
    assert_eq!(Key::Key0.code(), 0);
    assert_eq!(Key::Key9.code(), 9);
    assert_eq!(Key::KeyF.code(), 15);
    assert_eq!(Key::from_code(10), Some(Key::KeyA));
    assert_eq!(Key::from_code(16), None);
}
