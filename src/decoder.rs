use crate::action::Action;
use vstd::prelude::*;

verus! {

/// One parsed machine instruction: its code number and its argument.
///
/// Codes 0 and 1 move to the absolute position `arg`, code 4 dwells for `arg`
/// milliseconds, code 92 declares the current position to be `arg`.
#[derive(Clone, Copy, Debug, PartialEq, Eq, Structural)]
pub struct Instruction {
    pub code: u32,
    pub arg: i64,
}

/// Why an instruction could not be decoded.
#[derive(Clone, Copy, Debug, PartialEq, Eq, Structural)]
pub enum DecodeError {
    /// The code is not one the decoder knows.
    Unsupported { code: u32 },
    /// The argument is not allowed for the code (a negative dwell).
    InvalidArgument { code: u32 },
    /// The move is longer than a step count can hold.
    OutOfRange { code: u32 },
}

/// The decoder engine. It tracks the position reached by the instructions
/// decoded so far, so that absolute targets become relative moves.
#[derive(Clone, Copy, Debug)]
pub struct Decoder {
    position: i64,
}

/// The position and actions that one instruction gives, from `position`.
pub open spec fn decode_spec(position: int, ins: Instruction) -> Result<(int, Seq<Action>), DecodeError> {
    if ins.code == 0 || ins.code == 1 {
        let delta = ins.arg - position;
        if delta < i64::MIN || delta > i64::MAX {
            Err(DecodeError::OutOfRange { code: ins.code })
        } else if delta == 0 {
            Ok((ins.arg as int, Seq::empty()))
        } else {
            Ok((ins.arg as int, seq![Action::Move { steps: delta as i64 }]))
        }
    } else if ins.code == 4 {
        if ins.arg < 0 {
            Err(DecodeError::InvalidArgument { code: ins.code })
        } else {
            Ok((position, seq![Action::Dwell { millis: ins.arg as u64 }]))
        }
    } else if ins.code == 92 {
        Ok((ins.arg as int, Seq::empty()))
    } else {
        Err(DecodeError::Unsupported { code: ins.code })
    }
}

/// The position and actions that a whole instruction stream gives, from
/// `position`, or the first error met in it.
pub open spec fn decode_all(position: int, ins: Seq<Instruction>) -> Result<(int, Seq<Action>), DecodeError>
    decreases ins.len(),
{
    if ins.len() == 0 {
        Ok((position, Seq::empty()))
    } else {
        match decode_all(position, ins.drop_last()) {
            Err(e) => Err(e),
            Ok((p, acts)) => match decode_spec(p, ins.last()) {
                Err(e) => Err(e),
                Ok((q, more)) => Ok((q, acts + more)),
            },
        }
    }
}

impl View for Decoder {
    type V = int;

    closed spec fn view(&self) -> int {
        self.position as int
    }
}

impl Decoder {
    pub fn new() -> (r: Decoder)
        ensures
            r@ == 0,
    {
        Decoder { position: 0 }
    }

    /// Forgets the position of the previous job.
    pub fn reset(&mut self)
        ensures
            final(self)@ == 0,
    {
        self.position = 0;
    }

    pub fn position(&self) -> (r: i64)
        ensures
            r as int == self@,
    {
        self.position
    }

    /// Decodes one instruction into its actions. On an error the position is kept.
    pub fn decode(&mut self, ins: &Instruction) -> (r: Result<Vec<Action>, DecodeError>)
        ensures
            match decode_spec(old(self)@, *ins) {
                Ok((p, acts)) => r is Ok && r->Ok_0@ == acts && final(self)@ == p,
                Err(e) => r == Err::<Vec<Action>, DecodeError>(e) && final(self)@ == old(self)@,
            },
    {
        if ins.code == 0 || ins.code == 1 {
            let delta: i128 = ins.arg as i128 - self.position as i128;
            if delta < i64::MIN as i128 || delta > i64::MAX as i128 {
                return Err(DecodeError::OutOfRange { code: ins.code });
            }
            self.position = ins.arg;
            if delta == 0 {
                Ok(Vec::new())
            } else {
                let mut v: Vec<Action> = Vec::new();
                v.push(Action::Move { steps: delta as i64 });
                Ok(v)
            }
        } else if ins.code == 4 {
            if ins.arg < 0 {
                return Err(DecodeError::InvalidArgument { code: ins.code });
            }
            let mut v: Vec<Action> = Vec::new();
            v.push(Action::Dwell { millis: ins.arg as u64 });
            Ok(v)
        } else if ins.code == 92 {
            self.position = ins.arg;
            Ok(Vec::new())
        } else {
            Err(DecodeError::Unsupported { code: ins.code })
        }
    }
}

} // verus!
