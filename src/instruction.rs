use vstd::prelude::*;

verus! {

/// One command for the rover.
#[derive(Debug, Clone, Copy, Hash, PartialEq, Eq, Structural)]
pub enum Instruction {
    /// Advances forward one unit.
    Forward,
    /// Rotates clockwise 90 degrees.
    RotateCW,
    /// Rotates counterclockwise 90 degrees.
    RotateCCW,
}

/// The meaning of one instruction code: 'F' moves forward, 'R' turns
/// clockwise, 'L' turns counterclockwise, and any other character is
/// rejected as itself.
pub open spec fn parse_code(c: char) -> Result<Instruction, char> {
    if c == 'F' {
        Ok(Instruction::Forward)
    } else if c == 'R' {
        Ok(Instruction::RotateCW)
    } else if c == 'L' {
        Ok(Instruction::RotateCCW)
    } else {
        Err(c)
    }
}

/// Whether `c` is one of the three instruction codes.
pub open spec fn is_code(c: char) -> bool {
    parse_code(c) is Ok
}

/// The instruction that a valid code stands for.
pub open spec fn code_instruction(c: char) -> Instruction
    recommends
        is_code(c),
{
    parse_code(c)->Ok_0
}

/// Whether `k` is the index of the first character of `s` that is no code.
pub open spec fn first_invalid_at(s: Seq<char>, k: int) -> bool {
    &&& 0 <= k < s.len()
    &&& !is_code(s[k])
    &&& forall|j: int| 0 <= j < k ==> is_code(#[trigger] s[j])
}

impl TryFrom<char> for Instruction {
    type Error = char;

    /// Parses one instruction code; any other character is handed back as the
    /// error.
    fn try_from(from: char) -> (r: Result<Instruction, char>) {
        match from {
            'F' => Ok(Instruction::Forward),
            'R' => Ok(Instruction::RotateCW),
            'L' => Ok(Instruction::RotateCCW),
            from => Err(from),
        }
    }
}

impl vstd::std_specs::convert::TryFromSpecImpl<char> for Instruction {
    open spec fn obeys_try_from_spec() -> bool {
        true
    }

    open spec fn try_from_spec(v: char) -> Result<Instruction, char> {
        parse_code(v)
    }
}

impl Instruction {
    /// Parses a string of instruction codes, left to right. The first
    /// character that is no code stops the parse and is returned as the error;
    /// otherwise the instructions come back in the order of their codes.
    pub fn from_string(string: &str) -> (r: Result<Vec<Instruction>, char>)
        ensures
            (forall|i: int| 0 <= i < string@.len() ==> is_code(#[trigger] string@[i])) <==> r is Ok,
            r is Ok ==> r->Ok_0@ == string@.map_values(|c: char| code_instruction(c)),
            r is Err ==> exists|k: int| first_invalid_at(string@, k) && r->Err_0 == string@[k],
    {
        let mut out: Vec<Instruction> = Vec::new();
        for c in it: string.chars()
            invariant
                it.seq() == string@,
                forall|j: int| 0 <= j < it.index() ==> is_code(#[trigger] string@[j]),
                out@ == string@.take(it.index()).map_values(|c: char| code_instruction(c)),
        {
            match Instruction::try_from(c) {
                Ok(instruction) => {
                    out.push(instruction);
                },
                Err(e) => {
                    assert(first_invalid_at(string@, it.index()));
                    return Err(e);
                },
            }
            assert(string@.take(it.index() + 1) =~= string@.take(it.index()).push(c));
        }
        assert(string@.take(string@.len() as int) =~= string@);
        Ok(out)
    }
}

} // verus!
