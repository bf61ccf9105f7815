use vstd::prelude::*;

verus! {

/// One decoded instruction. Register operands are register numbers (0..=15),
/// addresses are 12-bit, and `n` fields are immediate bytes.
#[derive(Debug, Clone, Copy, PartialEq, Eq, Structural)]
pub enum OpCode {
    /// Call of a machine-code routine (unsupported, executes as a no-op).
    CallMCodeSubroutine(u16),
    ClearScreen,
    SubroutineRet,
    Goto(u16),
    Call(u16),
    SkipNextIfEqRegN { vx: u8, n: u8 },
    SkipNextIfNotEqRegN { vx: u8, n: u8 },
    SkipNextIfEqRegReg { vx: u8, vy: u8 },
    SetRegToN { vx: u8, n: u8 },
    AddNToRegNoCarry { vx: u8, n: u8 },
    SetRegToReg { vx: u8, vy: u8 },
    SetRegToRegOrReg { vx: u8, vy: u8 },
    SetRegToRegAndReg { vx: u8, vy: u8 },
    SetRegToRegXorReg { vx: u8, vy: u8 },
    AddRegToReg { vx: u8, vy: u8 },
    SubtractRegFromReg { vx: u8, vy: u8 },
    StoreLeastSigBitAndRightShift { vx: u8 },
    /// vX = vY - vX
    SubtractRegFromRegAndStoreInReg { vy: u8, vx: u8 },
    StoreMostSigBitAndLeftShift { vx: u8 },
    SkipNextIfNotEqRegReg { vx: u8, vy: u8 },
    SetIndexRegToN(u16),
    JumpToAddrNPlusV0(u16),
    Rand { vx: u8, n: u8 },
    DrawSprite { vx: u8, vy: u8, height: u8 },
    SkipNextIfKeyPressed(u8),
    SkipNextIfNotPressed(u8),
    GetDelayTimerValue(u8),
    GetKey(u8),
    SetDelayTimerValue(u8),
    SetSoundTimerValue(u8),
    AddRegToIndexReg(u8),
    SetIndexToSpriteLocation(u8),
    BinaryCodedDecimalConversion(u8),
    StoreV0ToVXToAddrAtIndex(u8),
    LoadV0ToVXFromAddrAtIndex(u8),
}

/// A register number.
pub open spec fn is_reg(r: u8) -> bool {
    r < 16
}

/// A 12-bit address.
pub open spec fn is_addr(a: u16) -> bool {
    a < 0x1000
}

impl OpCode {
    /// Every operand fits the field of the instruction word it comes from.
    pub open spec fn wf(self) -> bool {
        match self {
            OpCode::CallMCodeSubroutine(a) => is_addr(a),
            OpCode::ClearScreen => true,
            OpCode::SubroutineRet => true,
            OpCode::Goto(a) => is_addr(a),
            OpCode::Call(a) => is_addr(a),
            OpCode::SkipNextIfEqRegN { vx, n } => is_reg(vx),
            OpCode::SkipNextIfNotEqRegN { vx, n } => is_reg(vx),
            OpCode::SkipNextIfEqRegReg { vx, vy } => is_reg(vx) && is_reg(vy),
            OpCode::SetRegToN { vx, n } => is_reg(vx),
            OpCode::AddNToRegNoCarry { vx, n } => is_reg(vx),
            OpCode::SetRegToReg { vx, vy } => is_reg(vx) && is_reg(vy),
            OpCode::SetRegToRegOrReg { vx, vy } => is_reg(vx) && is_reg(vy),
            OpCode::SetRegToRegAndReg { vx, vy } => is_reg(vx) && is_reg(vy),
            OpCode::SetRegToRegXorReg { vx, vy } => is_reg(vx) && is_reg(vy),
            OpCode::AddRegToReg { vx, vy } => is_reg(vx) && is_reg(vy),
            OpCode::SubtractRegFromReg { vx, vy } => is_reg(vx) && is_reg(vy),
            OpCode::StoreLeastSigBitAndRightShift { vx } => is_reg(vx),
            OpCode::SubtractRegFromRegAndStoreInReg { vy, vx } => is_reg(vx) && is_reg(vy),
            OpCode::StoreMostSigBitAndLeftShift { vx } => is_reg(vx),
            OpCode::SkipNextIfNotEqRegReg { vx, vy } => is_reg(vx) && is_reg(vy),
            OpCode::SetIndexRegToN(a) => is_addr(a),
            OpCode::JumpToAddrNPlusV0(a) => is_addr(a),
            OpCode::Rand { vx, n } => is_reg(vx),
            OpCode::DrawSprite { vx, vy, height } => is_reg(vx) && is_reg(vy) && height < 16,
            OpCode::SkipNextIfKeyPressed(x) => is_reg(x),
            OpCode::SkipNextIfNotPressed(x) => is_reg(x),
            OpCode::GetDelayTimerValue(x) => is_reg(x),
            OpCode::GetKey(x) => is_reg(x),
            OpCode::SetDelayTimerValue(x) => is_reg(x),
            OpCode::SetSoundTimerValue(x) => is_reg(x),
            OpCode::AddRegToIndexReg(x) => is_reg(x),
            OpCode::SetIndexToSpriteLocation(x) => is_reg(x),
            OpCode::BinaryCodedDecimalConversion(x) => is_reg(x),
            OpCode::StoreV0ToVXToAddrAtIndex(x) => is_reg(x),
            OpCode::LoadV0ToVXFromAddrAtIndex(x) => is_reg(x),
        }
    }
}

} // verus!
