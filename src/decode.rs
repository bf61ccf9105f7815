use vstd::prelude::*;
use crate::error::Fault;
use crate::opcode::OpCode;
use crate::state::State;

verus! {

/// Nibble `k` of `word`, counted from the least significant (0) to the most
/// significant (3).
pub open spec fn nibble(word: u16, k: int) -> u16 {
    if k == 0 {
        word & 0xF
    } else if k == 1 {
        (word >> 4u16) & 0xF
    } else if k == 2 {
        (word >> 8u16) & 0xF
    } else {
        word >> 12u16
    }
}

/// The 12-bit address held in the three low nibbles.
pub open spec fn address(word: u16) -> u16 {
    (nibble(word, 2) * 256 + nibble(word, 1) * 16 + nibble(word, 0)) as u16
}

/// The immediate byte held in the two low nibbles.
pub open spec fn immediate(word: u16) -> u8 {
    (nibble(word, 1) * 16 + nibble(word, 0)) as u8
}

/// The instruction table: the instruction a word encodes, if any. The top
/// nibble selects the family; in families 0, 8, 9, 0xE and 0xF the low nibble
/// or low byte selects the instruction.
pub open spec fn decoded(word: u16) -> Option<OpCode> {
    let x = nibble(word, 2) as u8;
    let y = nibble(word, 1) as u8;
    let low = nibble(word, 0);
    let kk = immediate(word);
    let nnn = address(word);
    let family = nibble(word, 3);
    if family == 0 {
        if word == 0x00E0 {
            Some(OpCode::ClearScreen)
        } else if word == 0x00EE {
            Some(OpCode::SubroutineRet)
        } else {
            Some(OpCode::CallMCodeSubroutine(nnn))
        }
    } else if family == 1 {
        Some(OpCode::Goto(nnn))
    } else if family == 2 {
        Some(OpCode::Call(nnn))
    } else if family == 3 {
        Some(OpCode::SkipNextIfEqRegN { vx: x, n: kk })
    } else if family == 4 {
        Some(OpCode::SkipNextIfNotEqRegN { vx: x, n: kk })
    } else if family == 5 {
        Some(OpCode::SkipNextIfEqRegReg { vx: x, vy: y })
    } else if family == 6 {
        Some(OpCode::SetRegToN { vx: x, n: kk })
    } else if family == 7 {
        Some(OpCode::AddNToRegNoCarry { vx: x, n: kk })
    } else if family == 8 {
        if low == 0 {
            Some(OpCode::SetRegToReg { vx: x, vy: y })
        } else if low == 1 {
            Some(OpCode::SetRegToRegOrReg { vx: x, vy: y })
        } else if low == 2 {
            Some(OpCode::SetRegToRegAndReg { vx: x, vy: y })
        } else if low == 3 {
            Some(OpCode::SetRegToRegXorReg { vx: x, vy: y })
        } else if low == 4 {
            Some(OpCode::AddRegToReg { vx: x, vy: y })
        } else if low == 5 {
            Some(OpCode::SubtractRegFromReg { vx: x, vy: y })
        } else if low == 6 {
            Some(OpCode::StoreLeastSigBitAndRightShift { vx: x })
        } else if low == 7 {
            Some(OpCode::SubtractRegFromRegAndStoreInReg { vx: x, vy: y })
        } else if low == 0xE {
            Some(OpCode::StoreMostSigBitAndLeftShift { vx: x })
        } else {
            None
        }
    } else if family == 9 {
        if low == 0 {
            Some(OpCode::SkipNextIfNotEqRegReg { vx: x, vy: y })
        } else {
            None
        }
    } else if family == 0xA {
        Some(OpCode::SetIndexRegToN(nnn))
    } else if family == 0xB {
        Some(OpCode::JumpToAddrNPlusV0(nnn))
    } else if family == 0xC {
        Some(OpCode::Rand { vx: x, n: kk })
    } else if family == 0xD {
        Some(OpCode::DrawSprite { vx: x, vy: y, height: low as u8 })
    } else if family == 0xE {
        if kk == 0x9E {
            Some(OpCode::SkipNextIfKeyPressed(x))
        } else if kk == 0xA1 {
            Some(OpCode::SkipNextIfNotPressed(x))
        } else {
            None
        }
    } else if kk == 0x07 {
        Some(OpCode::GetDelayTimerValue(x))
    } else if kk == 0x0A {
        Some(OpCode::GetKey(x))
    } else if kk == 0x15 {
        Some(OpCode::SetDelayTimerValue(x))
    } else if kk == 0x18 {
        Some(OpCode::SetSoundTimerValue(x))
    } else if kk == 0x1E {
        Some(OpCode::AddRegToIndexReg(x))
    } else if kk == 0x29 {
        Some(OpCode::SetIndexToSpriteLocation(x))
    } else if kk == 0x33 {
        Some(OpCode::BinaryCodedDecimalConversion(x))
    } else if kk == 0x55 {
        Some(OpCode::StoreV0ToVXToAddrAtIndex(x))
    } else if kk == 0x65 {
        Some(OpCode::LoadV0ToVXFromAddrAtIndex(x))
    } else {
        None
    }
}

/// What `decode` returns for `word` fetched with program counter `pc`.
pub open spec fn decode_result(pc: u16, word: u16) -> Result<OpCode, Fault> {
    match decoded(word) {
        Some(op) => Ok(op),
        None => Err(Fault::UnknownOpcode { word, pc }),
    }
}

/// Every nibble is below 16, the address is the low twelve bits and the
/// immediate byte the low eight bits of the word.
pub proof fn lemma_nibbles(word: u16)
    ensures
        nibble(word, 0) < 16,
        nibble(word, 1) < 16,
        nibble(word, 2) < 16,
        nibble(word, 3) < 16,
        address(word) < 0x1000,
        address(word) == word & 0x0FFF,
        immediate(word) == word & 0xFF,
{
    assert(word & 0xF < 16 && (word >> 4u16) & 0xF < 16 && (word >> 8u16) & 0xF < 16 && word
        >> 12u16 < 16) by (bit_vector);
    assert((((word >> 8u16) & 0xF) * 256 + ((word >> 4u16) & 0xF) * 16 + (word & 0xF)) == word
        & 0x0FFF) by (bit_vector);
    assert((((word >> 4u16) & 0xF) * 16 + (word & 0xF)) == word & 0xFF) by (bit_vector);
}

/// Decodes one instruction word. `state` only supplies the program counter
/// that an unknown word is reported with.
pub fn decode(state: &State, opcode: u16) -> (r: Result<OpCode, Fault>)
    ensures
        r == decode_result(state.program_counter, opcode),
        r matches Ok(op) ==> op.wf(),
{
    proof {
        lemma_nibbles(opcode);
    }
    let x: u8 = ((opcode >> 8) & 0xF) as u8;
    let y: u8 = ((opcode >> 4) & 0xF) as u8;
    let low: u16 = opcode & 0xF;
    let kk: u8 = (opcode & 0xFF) as u8;
    let nnn: u16 = opcode & 0x0FFF;
    let op = match opcode >> 12 {
        0 => {
            if opcode == 0x00E0 {
                OpCode::ClearScreen
            } else if opcode == 0x00EE {
                OpCode::SubroutineRet
            } else {
                OpCode::CallMCodeSubroutine(nnn)
            }
        },
        1 => OpCode::Goto(nnn),
        2 => OpCode::Call(nnn),
        3 => OpCode::SkipNextIfEqRegN { vx: x, n: kk },
        4 => OpCode::SkipNextIfNotEqRegN { vx: x, n: kk },
        5 => OpCode::SkipNextIfEqRegReg { vx: x, vy: y },
        6 => OpCode::SetRegToN { vx: x, n: kk },
        7 => OpCode::AddNToRegNoCarry { vx: x, n: kk },
        8 => match low {
            0 => OpCode::SetRegToReg { vx: x, vy: y },
            1 => OpCode::SetRegToRegOrReg { vx: x, vy: y },
            2 => OpCode::SetRegToRegAndReg { vx: x, vy: y },
            3 => OpCode::SetRegToRegXorReg { vx: x, vy: y },
            4 => OpCode::AddRegToReg { vx: x, vy: y },
            5 => OpCode::SubtractRegFromReg { vx: x, vy: y },
            6 => OpCode::StoreLeastSigBitAndRightShift { vx: x },
            7 => OpCode::SubtractRegFromRegAndStoreInReg { vx: x, vy: y },
            0xE => OpCode::StoreMostSigBitAndLeftShift { vx: x },
            _ => {
                return Err(Fault::UnknownOpcode { word: opcode, pc: state.program_counter });
            },
        },
        9 => {
            if low == 0 {
                OpCode::SkipNextIfNotEqRegReg { vx: x, vy: y }
            } else {
                return Err(Fault::UnknownOpcode { word: opcode, pc: state.program_counter });
            }
        },
        0xA => OpCode::SetIndexRegToN(nnn),
        0xB => OpCode::JumpToAddrNPlusV0(nnn),
        0xC => OpCode::Rand { vx: x, n: kk },
        0xD => OpCode::DrawSprite { vx: x, vy: y, height: low as u8 },
        0xE => match kk {
            0x9E => OpCode::SkipNextIfKeyPressed(x),
            0xA1 => OpCode::SkipNextIfNotPressed(x),
            _ => {
                return Err(Fault::UnknownOpcode { word: opcode, pc: state.program_counter });
            },
        },
        _ => match kk {
            0x07 => OpCode::GetDelayTimerValue(x),
            0x0A => OpCode::GetKey(x),
            0x15 => OpCode::SetDelayTimerValue(x),
            0x18 => OpCode::SetSoundTimerValue(x),
            0x1E => OpCode::AddRegToIndexReg(x),
            0x29 => OpCode::SetIndexToSpriteLocation(x),
            0x33 => OpCode::BinaryCodedDecimalConversion(x),
            0x55 => OpCode::StoreV0ToVXToAddrAtIndex(x),
            0x65 => OpCode::LoadV0ToVXFromAddrAtIndex(x),
            _ => {
                return Err(Fault::UnknownOpcode { word: opcode, pc: state.program_counter });
            },
        },
    };
    Ok(op)
}

} // verus!
