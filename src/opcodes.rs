use vstd::prelude::*;

verus! {

/// A decoded instruction with its operand fields.
#[derive(Debug, Clone, Copy, PartialEq, Eq, Structural)]
pub enum Opcode {
    Invalid,
    Add { r: u8, value: u8 },
    AddAddress { r: u8 },
    Assign { dst: u8, src: u8 },
    BitOpAnd { r1: u8, r2: u8 },
    BitOpOr { r1: u8, r2: u8 },
    BitOpShiftL { r: u8 },
    BitOpShiftR { r: u8 },
    BitOpXor { r1: u8, r2: u8 },
    CallRca { address: u16 },
    CallSubroutine { address: u16 },
    Clear,
    CondEq { r: u8, value: u8 },
    CondKeyPressed { r: u8 },
    CondKeyReleased { r: u8 },
    CondNe { r: u8, value: u8 },
    CondVxVyEq { r1: u8, r2: u8 },
    CondVxVyNe { r1: u8, r2: u8 },
    DrawSprite { rx: u8, ry: u8, n: u8 },
    GetDelayTimer { r: u8 },
    Goto { address: u16 },
    Increment { r1: u8, r2: u8 },
    Jump { offset: u16 },
    LoadRegisters { r: u8 },
    Return,
    SetRegister { r: u8, value: u8 },
    SetAddress { value: u16 },
    SetBCD { r: u8 },
    SetDelayTimer { r: u8 },
    SetRand { r: u8, mask: u8 },
    SetSoundTimer { r: u8 },
    SetSprite { r: u8 },
    StoreRegisters { r: u8 },
    Sub { r1: u8, r2: u8 },
    SubVyVx { r1: u8, r2: u8 },
    WaitKeyPressed { r: u8 },
}

impl Opcode {
    /// Every register field names one of the sixteen registers, every
    /// address fits in twelve bits and a sprite height in four.
    pub open spec fn wf(self) -> bool {
        match self {
            Opcode::Invalid | Opcode::Clear | Opcode::Return => true,
            Opcode::Add { r, .. } | Opcode::AddAddress { r } | Opcode::BitOpShiftL { r }
            | Opcode::BitOpShiftR { r } | Opcode::CondEq { r, .. } | Opcode::CondKeyPressed { r }
            | Opcode::CondKeyReleased { r } | Opcode::CondNe { r, .. } | Opcode::GetDelayTimer { r }
            | Opcode::LoadRegisters { r } | Opcode::SetRegister { r, .. } | Opcode::SetBCD { r }
            | Opcode::SetDelayTimer { r } | Opcode::SetRand { r, .. } | Opcode::SetSoundTimer { r }
            | Opcode::SetSprite { r } | Opcode::StoreRegisters { r }
            | Opcode::WaitKeyPressed { r } => r < 16,
            Opcode::Assign { dst, src } => dst < 16 && src < 16,
            Opcode::BitOpAnd { r1, r2 } | Opcode::BitOpOr { r1, r2 } | Opcode::BitOpXor { r1, r2 }
            | Opcode::CondVxVyEq { r1, r2 } | Opcode::CondVxVyNe { r1, r2 }
            | Opcode::Increment { r1, r2 } | Opcode::Sub { r1, r2 }
            | Opcode::SubVyVx { r1, r2 } => r1 < 16 && r2 < 16,
            Opcode::CallRca { address } | Opcode::CallSubroutine { address }
            | Opcode::Goto { address } => address < 4096,
            Opcode::Jump { offset } => offset < 4096,
            Opcode::SetAddress { value } => value < 4096,
            Opcode::DrawSprite { rx, ry, n } => rx < 16 && ry < 16 && n < 16,
        }
    }
}

/// The top nibble of an instruction word: it selects the instruction family.
pub open spec fn family(w: u16) -> u16 {
    w / 4096
}

/// The second nibble, which names the first register operand.
pub open spec fn nib_x(w: u16) -> u8 {
    ((w / 256) % 16) as u8
}

/// The third nibble, which names the second register operand.
pub open spec fn nib_y(w: u16) -> u8 {
    ((w / 16) % 16) as u8
}

/// The lowest nibble.
pub open spec fn nib_n(w: u16) -> u8 {
    (w % 16) as u8
}

/// The low byte, an immediate value.
pub open spec fn low_byte(w: u16) -> u8 {
    (w % 256) as u8
}

/// The low twelve bits, an address.
pub open spec fn low_addr(w: u16) -> u16 {
    (w % 4096) as u16
}

/// The operation that the word `w` encodes.
pub open spec fn decode_spec(w: u16) -> Opcode {
    let x = nib_x(w);
    let y = nib_y(w);
    let kk = low_byte(w);
    let nnn = low_addr(w);
    let f = family(w);
    if f == 0 {
        if w == 0x00E0 {
            Opcode::Clear
        } else if w == 0x00EE {
            Opcode::Return
        } else {
            Opcode::CallRca { address: nnn }
        }
    } else if f == 1 {
        Opcode::Goto { address: nnn }
    } else if f == 2 {
        Opcode::CallSubroutine { address: nnn }
    } else if f == 3 {
        Opcode::CondEq { r: x, value: kk }
    } else if f == 4 {
        Opcode::CondNe { r: x, value: kk }
    } else if f == 5 {
        Opcode::CondVxVyEq { r1: x, r2: y }
    } else if f == 6 {
        Opcode::SetRegister { r: x, value: kk }
    } else if f == 7 {
        Opcode::Add { r: x, value: kk }
    } else if f == 8 {
        let n = nib_n(w);
        if n == 0 {
            Opcode::Assign { dst: x, src: y }
        } else if n == 1 {
            Opcode::BitOpOr { r1: x, r2: y }
        } else if n == 2 {
            Opcode::BitOpAnd { r1: x, r2: y }
        } else if n == 3 {
            Opcode::BitOpXor { r1: x, r2: y }
        } else if n == 4 {
            Opcode::Increment { r1: x, r2: y }
        } else if n == 5 {
            Opcode::Sub { r1: x, r2: y }
        } else if n == 6 {
            Opcode::BitOpShiftR { r: x }
        } else if n == 7 {
            Opcode::SubVyVx { r1: x, r2: y }
        } else if n == 0xE {
            Opcode::BitOpShiftL { r: x }
        } else {
            Opcode::Invalid
        }
    } else if f == 9 {
        Opcode::CondVxVyNe { r1: x, r2: y }
    } else if f == 0xA {
        Opcode::SetAddress { value: nnn }
    } else if f == 0xB {
        Opcode::Jump { offset: nnn }
    } else if f == 0xC {
        Opcode::SetRand { r: x, mask: kk }
    } else if f == 0xD {
        Opcode::DrawSprite { rx: x, ry: y, n: nib_n(w) }
    } else if f == 0xE {
        if kk == 0x9E {
            Opcode::CondKeyPressed { r: x }
        } else if kk == 0xA1 {
            Opcode::CondKeyReleased { r: x }
        } else {
            Opcode::Invalid
        }
    } else {
        if kk == 0x07 {
            Opcode::GetDelayTimer { r: x }
        } else if kk == 0x0A {
            Opcode::WaitKeyPressed { r: x }
        } else if kk == 0x15 {
            Opcode::SetDelayTimer { r: x }
        } else if kk == 0x18 {
            Opcode::SetSoundTimer { r: x }
        } else if kk == 0x1E {
            Opcode::AddAddress { r: x }
        } else if kk == 0x29 {
            Opcode::SetSprite { r: x }
        } else if kk == 0x33 {
            Opcode::SetBCD { r: x }
        } else if kk == 0x55 {
            Opcode::StoreRegisters { r: x }
        } else if kk == 0x65 {
            Opcode::LoadRegisters { r: x }
        } else {
            Opcode::Invalid
        }
    }
}

/// Decodes one big-endian instruction word. Total: a pattern that names no
/// operation decodes to `Opcode::Invalid`.
pub fn decode(w: u16) -> (r: Opcode)
    ensures
        r == decode_spec(w),
        r.wf(),
{
    let x: u8 = ((w / 256) % 16) as u8;
    let y: u8 = ((w / 16) % 16) as u8;
    let n: u8 = (w % 16) as u8;
    let kk: u8 = (w % 256) as u8;
    let nnn: u16 = w % 4096;
    match w / 4096 {
        0 => {
            if w == 0x00E0 {
                Opcode::Clear
            } else if w == 0x00EE {
                Opcode::Return
            } else {
                Opcode::CallRca { address: nnn }
            }
        },
        1 => Opcode::Goto { address: nnn },
        2 => Opcode::CallSubroutine { address: nnn },
        3 => Opcode::CondEq { r: x, value: kk },
        4 => Opcode::CondNe { r: x, value: kk },
        5 => Opcode::CondVxVyEq { r1: x, r2: y },
        6 => Opcode::SetRegister { r: x, value: kk },
        7 => Opcode::Add { r: x, value: kk },
        8 => match n {
            0 => Opcode::Assign { dst: x, src: y },
            1 => Opcode::BitOpOr { r1: x, r2: y },
            2 => Opcode::BitOpAnd { r1: x, r2: y },
            3 => Opcode::BitOpXor { r1: x, r2: y },
            4 => Opcode::Increment { r1: x, r2: y },
            5 => Opcode::Sub { r1: x, r2: y },
            6 => Opcode::BitOpShiftR { r: x },
            7 => Opcode::SubVyVx { r1: x, r2: y },
            0xE => Opcode::BitOpShiftL { r: x },
            _ => Opcode::Invalid,
        },
        9 => Opcode::CondVxVyNe { r1: x, r2: y },
        0xA => Opcode::SetAddress { value: nnn },
        0xB => Opcode::Jump { offset: nnn },
        0xC => Opcode::SetRand { r: x, mask: kk },
        0xD => Opcode::DrawSprite { rx: x, ry: y, n },
        0xE => match kk {
            0x9E => Opcode::CondKeyPressed { r: x },
            0xA1 => Opcode::CondKeyReleased { r: x },
            _ => Opcode::Invalid,
        },
        _ => match kk {
            0x07 => Opcode::GetDelayTimer { r: x },
            0x0A => Opcode::WaitKeyPressed { r: x },
            0x15 => Opcode::SetDelayTimer { r: x },
            0x18 => Opcode::SetSoundTimer { r: x },
            0x1E => Opcode::AddAddress { r: x },
            0x29 => Opcode::SetSprite { r: x },
            0x33 => Opcode::SetBCD { r: x },
            0x55 => Opcode::StoreRegisters { r: x },
            0x65 => Opcode::LoadRegisters { r: x },
            _ => Opcode::Invalid,
        },
    }
}

} // verus!
