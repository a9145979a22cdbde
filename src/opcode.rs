use vstd::prelude::*;

verus! {

/// The instruction vocabulary. Each opcode is encoded as one byte:
/// `Halt` is 0, `Add` 1, `Sub` 2 and `Constant` 3.
#[derive(Clone, Copy, Debug, PartialEq, Eq, Structural)]
pub enum Opcode {
    Halt,
    Add,
    Sub,
    Constant,
}

/// The opcode that a byte encodes, if any.
pub open spec fn decode_spec(b: u8) -> Option<Opcode> {
    if b == 0 {
        Some(Opcode::Halt)
    } else if b == 1 {
        Some(Opcode::Add)
    } else if b == 2 {
        Some(Opcode::Sub)
    } else if b == 3 {
        Some(Opcode::Constant)
    } else {
        None
    }
}

impl Opcode {
    /// The byte that encodes this opcode.
    pub open spec fn byte_spec(self) -> u8 {
        match self {
            Opcode::Halt => 0,
            Opcode::Add => 1,
            Opcode::Sub => 2,
            Opcode::Constant => 3,
        }
    }

    pub fn byte(self) -> (r: u8)
        ensures
            r == self.byte_spec(),
    {
        match self {
            Opcode::Halt => 0,
            Opcode::Add => 1,
            Opcode::Sub => 2,
            Opcode::Constant => 3,
        }
    }

    /// Total decoding: every byte outside `0..=3` is rejected.
    pub fn decode(b: u8) -> (r: Option<Opcode>)
        ensures
            r == decode_spec(b),
            r matches Some(op) ==> op.byte_spec() == b,
    {
        match b {
            0 => Some(Opcode::Halt),
            1 => Some(Opcode::Add),
            2 => Some(Opcode::Sub),
            3 => Some(Opcode::Constant),
            _ => None,
        }
    }
}

/// Decoding inverts encoding.
pub proof fn lemma_decode_byte(op: Opcode)
    ensures
        decode_spec(op.byte_spec()) == Some(op),
{
}

} // verus!
