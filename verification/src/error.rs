use vstd::prelude::*;

verus! {

/// A fatal condition reported to the driver. Once one of these is returned
/// the program being interpreted is defective and emulation cannot continue
/// meaningfully; the machine state is left exactly as it was before the
/// failing step.
#[derive(Clone, Copy, Debug, PartialEq, Eq, Structural)]
pub enum ChipError {
    /// The fetched opcode has no mapped instruction within the classes that
    /// use a secondary dispatch (0x8, 0xE, 0xF).
    DecodeFailure,
    /// A subroutine call was executed with the call stack already full.
    StackOverflow,
    /// A return was executed with the call stack empty.
    StackUnderflow,
    /// A font-glyph lookup was executed for a register value above 0xF; the
    /// font table has exactly 16 entries.
    InvalidFontDigit,
}

impl ChipError {
    /// A short human-readable name for the condition.
    pub fn describe(&self) -> String {
        match self {
            ChipError::DecodeFailure => "illegal instruction".to_string(),
            ChipError::StackOverflow => "stack overflow".to_string(),
            ChipError::StackUnderflow => "stack underflow".to_string(),
            ChipError::InvalidFontDigit => "font digit out of range".to_string(),
        }
    }
}

} // verus!
