//! The phase program: the ordered sequence of phase descriptors that one
//! timer run executes, together with the validity condition that a program
//! and its variable bank must meet at construction time.

use vstd::prelude::*;

verus! {

/// One step of a configured timer program.
///
/// `BeginProgram` and `EndProgram` are sentinels: they mark "before phase 0"
/// and "after the last phase" in reported transitions and are never stored in
/// a valid program body.
#[derive(Debug, Clone, Copy, PartialEq, Eq, Structural)]
pub enum ProgramPhase {
    BeginProgram,
    TimeFor { duration: usize },
    ReceiveInput,
    Repeat { to_phase: usize, var_index: usize },
    OffsetVariable { var_index: usize, offset: i8 },
    EndProgram,
}

/// The phase at index `i` is well formed for a program of this length with
/// `n_vars` loop variables: jump targets stay inside the program and never
/// point forward, variable indices stay inside the bank, and the two
/// sentinels do not occur in the body.
pub open spec fn valid_phase(program: Seq<ProgramPhase>, n_vars: nat, i: int) -> bool {
    match program[i] {
        ProgramPhase::BeginProgram => false,
        ProgramPhase::TimeFor { duration } => true,
        ProgramPhase::ReceiveInput => true,
        ProgramPhase::Repeat { to_phase, var_index } => {
            &&& to_phase < program.len()
            &&& to_phase <= i
            &&& var_index < n_vars
        },
        ProgramPhase::OffsetVariable { var_index, offset } => var_index < n_vars,
        ProgramPhase::EndProgram => false,
    }
}

/// Every phase of the program is well formed.
pub open spec fn valid_program(program: Seq<ProgramPhase>, n_vars: nat) -> bool {
    forall|i: int| 0 <= i < program.len() ==> valid_phase(program, n_vars, i)
}

/// Decides at construction time whether a program is a valid configuration
/// for a bank of `n_vars` loop variables. A malformed configuration is
/// rejected here, never discovered mid-run.
pub fn program_is_valid(program: &Vec<ProgramPhase>, n_vars: usize) -> (r: bool)
    ensures
        r == (program@.len() >= 1 && valid_program(program@, n_vars as nat)),
{
    if program.len() == 0 {
        return false;
    }
    let mut i: usize = 0;
    while i < program.len()
        invariant
            i <= program@.len(),
            forall|j: int| 0 <= j < i ==> valid_phase(program@, n_vars as nat, j),
        decreases program@.len() - i,
    {
        let p = program[i];
        let ok = match p {
            ProgramPhase::BeginProgram => false,
            ProgramPhase::TimeFor { duration: _ } => true,
            ProgramPhase::ReceiveInput => true,
            ProgramPhase::Repeat { to_phase, var_index } => {
                to_phase < program.len() && to_phase <= i && var_index < n_vars
            },
            ProgramPhase::OffsetVariable { var_index, offset: _ } => var_index < n_vars,
            ProgramPhase::EndProgram => false,
        };
        if !ok {
            assert(!valid_phase(program@, n_vars as nat, i as int));
            return false;
        }
        i += 1;
    }
    true
}

/// The saturating decrement a `Repeat` phase applies to its loop variable.
pub open spec fn dec_var(v: i8) -> i8 {
    if v == -128 {
        -128i8
    } else {
        (v - 1) as i8
    }
}

/// The saturating addition an `OffsetVariable` phase applies to its loop
/// variable.
pub open spec fn offset_var(v: i8, d: i8) -> i8 {
    let s = v + d;
    if s < -128 {
        -128i8
    } else if s > 127 {
        127i8
    } else {
        s as i8
    }
}

/// Decrements a loop variable, saturating at the smallest representable
/// value.
pub fn saturating_decrement(v: i8) -> (r: i8)
    ensures
        r == dec_var(v),
{
    if v == -128 {
        -128
    } else {
        v - 1
    }
}

/// Applies a signed offset to a loop variable, saturating at the
/// representable bounds.
pub fn saturating_offset(v: i8, d: i8) -> (r: i8)
    ensures
        r == offset_var(v, d),
{
    let s: i16 = v as i16 + d as i16;
    if s < -128 {
        -128
    } else if s > 127 {
        127
    } else {
        s as i8
    }
}

} // verus!
