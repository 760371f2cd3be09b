//! The timer finite-state machine: interprets a phase program one phase at a
//! time and exposes a single total transition function from input events to
//! output events.

use vstd::prelude::*;

use crate::program::ProgramPhase;
use crate::program::dec_var;
use crate::program::offset_var;
use crate::program::saturating_decrement;
use crate::program::saturating_offset;
use crate::program::valid_phase;
use crate::program::valid_program;

verus! {

/// One input event delivered to the machine. `Step` is one tick of external
/// time; `Input` is the explicit "user provided the awaited input" signal.
#[derive(Debug, Clone, Copy, PartialEq, Eq, Structural)]
pub enum TimerInput {
    Start,
    Step,
    Stop,
    Pause,
    Resume,
    Reset,
    Skip,
    Input,
}

/// The one output event a call to the transition function returns.
#[derive(Debug, Clone, Copy, PartialEq, Eq, Structural)]
pub enum TimerOutput {
    NoChange,
    ProgramStopped { program_phase: ProgramPhase },
    PhaseChange { prev_phase: ProgramPhase, next_phase: ProgramPhase, phase_completed: bool },
    TimerProgress { seconds: usize },
    TimerPaused,
    TimerReset { seconds: usize },
    TimerResumed { seconds: usize },
}

/// The machine's execution state: at rest, counting down, or awaiting input.
#[derive(Debug, Clone, Copy, PartialEq, Eq, Structural)]
pub enum TimerState {
    Idle,
    Timer { progress: usize, duration: usize, paused: bool },
    Input,
}

/// The mathematical model of a machine: the program and initial variable
/// bank fixed at construction, the current variable bank, the execution
/// state, and the phase cursor.
pub ghost struct FsmModel {
    pub program: Seq<ProgramPhase>,
    pub init_vars: Seq<i8>,
    pub vars: Seq<i8>,
    pub state: TimerState,
    pub phase: nat,
}

/// The result of entering the program at `cursor`: the cursor, variable bank
/// and execution state after all control-flow phases in the way have been
/// resolved.
///
/// `Repeat` decrements its variable: while the value after the decrement is
/// still nonzero the jump is taken; once it reaches zero the variable is
/// restored to its configured initial value and execution falls through.
/// `OffsetVariable` adjusts its variable and falls through. `fuel` bounds the
/// number of control-flow phases resolved in one entry; when it runs out the
/// machine stops in `Idle` rather than loop forever on a misconfigured
/// program that never reaches a terminal phase.
pub open spec fn phase_entry(
    program: Seq<ProgramPhase>,
    init_vars: Seq<i8>,
    vars: Seq<i8>,
    cursor: nat,
    fuel: nat,
) -> (nat, Seq<i8>, TimerState)
    decreases fuel,
{
    if cursor >= program.len() {
        (cursor, vars, TimerState::Idle)
    } else {
        match program[cursor as int] {
            ProgramPhase::TimeFor { duration } => (
                cursor,
                vars,
                TimerState::Timer { progress: duration, duration, paused: false },
            ),
            ProgramPhase::ReceiveInput => (cursor, vars, TimerState::Input),
            ProgramPhase::BeginProgram => (0, vars, TimerState::Idle),
            ProgramPhase::EndProgram => (0, vars, TimerState::Idle),
            ProgramPhase::Repeat { to_phase, var_index } => {
                if fuel == 0 {
                    (cursor, vars, TimerState::Idle)
                } else {
                    let v = dec_var(vars[var_index as int]);
                    if v != 0 {
                        phase_entry(
                            program,
                            init_vars,
                            vars.update(var_index as int, v),
                            to_phase as nat,
                            (fuel - 1) as nat,
                        )
                    } else {
                        phase_entry(
                            program,
                            init_vars,
                            vars.update(var_index as int, init_vars[var_index as int]),
                            cursor + 1,
                            (fuel - 1) as nat,
                        )
                    }
                }
            },
            ProgramPhase::OffsetVariable { var_index, offset } => {
                if fuel == 0 {
                    (cursor, vars, TimerState::Idle)
                } else {
                    phase_entry(
                        program,
                        init_vars,
                        vars.update(var_index as int, offset_var(vars[var_index as int], offset)),
                        cursor + 1,
                        (fuel - 1) as nat,
                    )
                }
            },
        }
    }
}

impl FsmModel {
    /// The invariant every reachable machine satisfies: the configuration is
    /// valid, the cursor stays within the program (one past the end at
    /// most), and the execution state agrees with the phase under the
    /// cursor.
    pub open spec fn inv(self) -> bool {
        &&& valid_program(self.program, self.vars.len())
        &&& self.program.len() >= 1
        &&& self.vars.len() == self.init_vars.len()
        &&& self.phase <= self.program.len()
        &&& match self.state {
            TimerState::Timer { progress, duration, paused } => {
                &&& progress <= duration
                &&& self.phase < self.program.len()
                &&& self.program[self.phase as int] == (ProgramPhase::TimeFor { duration })
            },
            TimerState::Input => {
                &&& self.phase < self.program.len()
                &&& self.program[self.phase as int] == ProgramPhase::ReceiveInput
            },
            TimerState::Idle => true,
        }
    }

    /// The phase at `cursor`, or the `EndProgram` sentinel when the cursor
    /// is past the end.
    pub open spec fn phase_or_end(self, cursor: nat) -> ProgramPhase {
        if cursor < self.program.len() {
            self.program[cursor as int]
        } else {
            ProgramPhase::EndProgram
        }
    }

    /// The machine after entering the program at `cursor`, with the fuel for
    /// one entry fixed at the program length.
    pub open spec fn entered_at(self, cursor: nat) -> FsmModel {
        let r = phase_entry(self.program, self.init_vars, self.vars, cursor, self.program.len());
        FsmModel {
            program: self.program,
            init_vars: self.init_vars,
            vars: r.1,
            state: r.2,
            phase: r.0,
        }
    }

    /// The machine with only the execution state replaced.
    pub open spec fn with_state(self, state: TimerState) -> FsmModel {
        FsmModel {
            program: self.program,
            init_vars: self.init_vars,
            vars: self.vars,
            state,
            phase: self.phase,
        }
    }

    /// Advancing to the next phase: capture the phase being left, move the
    /// cursor one ahead, enter the program there, and report the transition
    /// with the given completion flag.
    pub open spec fn advanced(self, completed: bool) -> (FsmModel, TimerOutput) {
        let prev = self.phase_or_end(self.phase);
        let m = self.entered_at(self.phase + 1);
        (
            m,
            TimerOutput::PhaseChange {
                prev_phase: prev,
                next_phase: m.phase_or_end(m.phase),
                phase_completed: completed,
            },
        )
    }

    /// The transition table: the machine and output after one input event.
    /// Total over every (state, input) pair; anomalous combinations are
    /// no-ops yielding `NoChange`.
    pub open spec fn apply(self, input: TimerInput) -> (FsmModel, TimerOutput) {
        match (self.state, input) {
            (_, TimerInput::Stop) => (
                FsmModel {
                    program: self.program,
                    init_vars: self.init_vars,
                    vars: self.vars,
                    state: TimerState::Idle,
                    phase: 0,
                },
                TimerOutput::ProgramStopped { program_phase: self.phase_or_end(self.phase) },
            ),
            (TimerState::Idle, TimerInput::Start) => {
                let m = self.entered_at(0);
                (
                    m,
                    TimerOutput::PhaseChange {
                        prev_phase: ProgramPhase::BeginProgram,
                        next_phase: m.phase_or_end(m.phase),
                        phase_completed: true,
                    },
                )
            },
            (TimerState::Idle, _) => (self, TimerOutput::NoChange),
            (_, TimerInput::Start) => (self, TimerOutput::NoChange),
            (_, TimerInput::Skip) => self.advanced(false),
            (TimerState::Timer { progress, duration, paused }, TimerInput::Step) => {
                if paused {
                    (self, TimerOutput::NoChange)
                } else if progress > 0 {
                    (
                        self.with_state(
                            TimerState::Timer { progress: (progress - 1) as usize, duration, paused },
                        ),
                        TimerOutput::TimerProgress { seconds: (progress - 1) as usize },
                    )
                } else {
                    self.advanced(true)
                }
            },
            (TimerState::Timer { progress, duration, paused }, TimerInput::Reset) => (
                self.with_state(TimerState::Timer { progress: duration, duration, paused }),
                TimerOutput::TimerReset { seconds: duration },
            ),
            (TimerState::Timer { progress, duration, paused }, TimerInput::Pause) => (
                self.with_state(TimerState::Timer { progress, duration, paused: true }),
                TimerOutput::TimerPaused,
            ),
            (TimerState::Timer { progress, duration, paused }, TimerInput::Resume) => (
                self.with_state(TimerState::Timer { progress, duration, paused: false }),
                TimerOutput::TimerResumed { seconds: progress },
            ),
            (TimerState::Timer { .. }, _) => (self, TimerOutput::NoChange),
            (TimerState::Input, TimerInput::Input) => self.advanced(true),
            (TimerState::Input, _) => (self, TimerOutput::NoChange),
        }
    }
}

/// Entering the program preserves the shape the invariant needs: the cursor
/// stays within bounds, the variable bank keeps its length, and the
/// resulting execution state agrees with the phase under the final cursor.
pub proof fn lemma_phase_entry_shape(
    program: Seq<ProgramPhase>,
    init_vars: Seq<i8>,
    vars: Seq<i8>,
    cursor: nat,
    fuel: nat,
)
    requires
        valid_program(program, vars.len()),
        init_vars.len() == vars.len(),
        cursor <= program.len(),
    ensures
        ({
            let r = phase_entry(program, init_vars, vars, cursor, fuel);
            &&& r.0 <= program.len()
            &&& r.1.len() == vars.len()
            &&& match r.2 {
                TimerState::Timer { progress, duration, paused } => {
                    &&& progress == duration
                    &&& !paused
                    &&& r.0 < program.len()
                    &&& program[r.0 as int] == (ProgramPhase::TimeFor { duration })
                },
                TimerState::Input => {
                    &&& r.0 < program.len()
                    &&& program[r.0 as int] == ProgramPhase::ReceiveInput
                },
                TimerState::Idle => true,
            }
        }),
    decreases fuel,
{
    if cursor < program.len() {
        assert(valid_phase(program, vars.len() as nat, cursor as int));
        match program[cursor as int] {
            ProgramPhase::Repeat { to_phase, var_index } => {
                if fuel > 0 {
                    let v = dec_var(vars[var_index as int]);
                    if v != 0 {
                        lemma_phase_entry_shape(
                            program,
                            init_vars,
                            vars.update(var_index as int, v),
                            to_phase as nat,
                            (fuel - 1) as nat,
                        );
                    } else {
                        lemma_phase_entry_shape(
                            program,
                            init_vars,
                            vars.update(var_index as int, init_vars[var_index as int]),
                            cursor + 1,
                            (fuel - 1) as nat,
                        );
                    }
                }
            },
            ProgramPhase::OffsetVariable { var_index, offset } => {
                if fuel > 0 {
                    lemma_phase_entry_shape(
                        program,
                        init_vars,
                        vars.update(var_index as int, offset_var(vars[var_index as int], offset)),
                        cursor + 1,
                        (fuel - 1) as nat,
                    );
                }
            },
            _ => {},
        }
    }
}

/// The variable bank a machine starts with: the bank handed to the
/// constructor, or an empty one.
pub open spec fn initial_bank(variables: Option<Vec<i8>>) -> Seq<i8> {
    match variables {
        Some(v) => v@,
        None => Seq::empty(),
    }
}

/// The timer machine: the program and its initial variable bank (fixed at
/// construction), the current variable bank, the execution state, and the
/// phase cursor.
pub struct TimerFSM {
    pub program: Vec<ProgramPhase>,
    pub initial_variables: Vec<i8>,
    pub variables: Vec<i8>,
    pub state: TimerState,
    pub phase: usize,
}

impl View for TimerFSM {
    type V = FsmModel;

    open spec fn view(&self) -> FsmModel {
        FsmModel {
            program: self.program@,
            init_vars: self.initial_variables@,
            vars: self.variables@,
            state: self.state,
            phase: self.phase as nat,
        }
    }
}

impl TimerFSM {
    /// The machine is well formed: its model satisfies the invariant.
    pub open spec fn wf(self) -> bool {
        self@.inv()
    }

    /// Copies a variable bank, so that the machine can keep the configured
    /// initial values beside the working ones.
    fn copy_bank(v: &Vec<i8>) -> (r: Vec<i8>)
        ensures
            r@ == v@,
    {
        let mut r: Vec<i8> = Vec::new();
        let mut i: usize = 0;
        while i < v.len()
            invariant
                i <= v@.len(),
                r@ == v@.subrange(0, i as int),
            decreases v@.len() - i,
        {
            r.push(v[i]);
            i += 1;
        }
        assert(v@.subrange(0, v@.len() as int) =~= v@);
        r
    }

    /// Constructs a machine over a configured program, at rest before phase
    /// 0. The configuration must be valid: a malformed one is a
    /// construction-time error, not a runtime condition.
    pub fn new(program: Vec<ProgramPhase>, variables: Option<Vec<i8>>) -> (r: TimerFSM)
        requires
            program@.len() >= 1,
            valid_program(program@, initial_bank(variables).len()),
        ensures
            r.wf(),
            r@ == (FsmModel {
                program: program@,
                init_vars: initial_bank(variables),
                vars: initial_bank(variables),
                state: TimerState::Idle,
                phase: 0,
            }),
    {
        let vars: Vec<i8> = match variables {
            Some(v) => v,
            None => Vec::new(),
        };
        let init = Self::copy_bank(&vars);
        TimerFSM {
            program,
            initial_variables: init,
            variables: vars,
            state: TimerState::Idle,
            phase: 0,
        }
    }

    /// The phase under the cursor, or the `EndProgram` sentinel when the
    /// cursor is past the end.
    fn current_phase_or_end(&self) -> (r: ProgramPhase)
        ensures
            r == self@.phase_or_end(self.phase as nat),
    {
        if self.phase < self.program.len() {
            self.program[self.phase]
        } else {
            ProgramPhase::EndProgram
        }
    }

    /// Enters the program at the current cursor, resolving control-flow
    /// phases iteratively until a terminal phase, the end of the program, or
    /// the cycle guard is reached. The guard allows one resolved control
    /// phase per phase of the program, so a misconfigured loop that never
    /// reaches a terminal phase stops in `Idle` instead of spinning forever.
    fn phase_transition(&mut self)
        requires
            valid_program(old(self).program@, old(self).variables@.len()),
            old(self).variables@.len() == old(self).initial_variables@.len(),
            old(self).phase <= old(self).program@.len(),
        ensures
            ({
                let r = phase_entry(
                    old(self).program@,
                    old(self).initial_variables@,
                    old(self).variables@,
                    old(self).phase as nat,
                    old(self).program@.len() as nat,
                );
                &&& final(self).phase == r.0
                &&& final(self).variables@ == r.1
                &&& final(self).state == r.2
            }),
            final(self).program@ == old(self).program@,
            final(self).initial_variables@ == old(self).initial_variables@,
    {
        let ghost prog = self.program@;
        let ghost init = self.initial_variables@;
        let ghost target = phase_entry(
            prog,
            init,
            self.variables@,
            self.phase as nat,
            prog.len() as nat,
        );
        let mut fuel: usize = self.program.len();
        loop
            invariant_except_break
                phase_entry(prog, init, self.variables@, self.phase as nat, fuel as nat)
                    == target,
            invariant
                self.program@ == prog,
                self.initial_variables@ == init,
                valid_program(prog, self.variables@.len()),
                self.variables@.len() == init.len(),
                self.phase <= prog.len(),
                fuel <= prog.len(),
            ensures
                self.program@ == prog,
                self.initial_variables@ == init,
                (self.phase as nat, self.variables@, self.state) == target,
            decreases fuel,
        {
            if self.phase >= self.program.len() {
                self.state = TimerState::Idle;
                break;
            }
            let current = self.program[self.phase];
            match current {
                ProgramPhase::TimeFor { duration } => {
                    self.state = TimerState::Timer { progress: duration, duration, paused: false };
                    break;
                },
                ProgramPhase::ReceiveInput => {
                    self.state = TimerState::Input;
                    break;
                },
                ProgramPhase::BeginProgram | ProgramPhase::EndProgram => {
                    self.state = TimerState::Idle;
                    self.phase = 0;
                    break;
                },
                ProgramPhase::Repeat { to_phase, var_index } => {
                    assert(valid_phase(prog, self.variables@.len() as nat, self.phase as int));
                    if fuel == 0 {
                        self.state = TimerState::Idle;
                        break;
                    }
                    fuel = fuel - 1;
                    let v = saturating_decrement(self.variables[var_index]);
                    if v != 0 {
                        self.variables[var_index] = v;
                        self.phase = to_phase;
                    } else {
                        self.variables[var_index] = self.initial_variables[var_index];
                        self.phase = self.phase + 1;
                    }
                },
                ProgramPhase::OffsetVariable { var_index, offset } => {
                    assert(valid_phase(prog, self.variables@.len() as nat, self.phase as int));
                    if fuel == 0 {
                        self.state = TimerState::Idle;
                        break;
                    }
                    fuel = fuel - 1;
                    let v = saturating_offset(self.variables[var_index], offset);
                    self.variables[var_index] = v;
                    self.phase = self.phase + 1;
                },
            }
        }
    }

    /// Advances to the next phase: the phase being left is reported as
    /// `prev_phase` with the given completion flag, and the machine enters
    /// the program at the next cursor position.
    fn next_phase(&mut self, prev_completed: bool) -> (r: TimerOutput)
        requires
            old(self).wf(),
            old(self).phase < old(self).program@.len(),
        ensures
            final(self).wf(),
            (final(self)@, r) == old(self)@.advanced(prev_completed),
    {
        let ghost m0 = self@;
        let n = self.program.len();
        assert(self.phase < n);
        let prev_phase = self.program[self.phase];
        self.phase = self.phase + 1;
        self.phase_transition();
        proof {
            lemma_phase_entry_shape(
                m0.program,
                m0.init_vars,
                m0.vars,
                m0.phase + 1,
                m0.program.len(),
            );
        }
        let next = self.current_phase_or_end();
        TimerOutput::PhaseChange { prev_phase, next_phase: next, phase_completed: prev_completed }
    }

    /// The transition function: consumes one input event, possibly mutates
    /// the machine, and always returns exactly one output event. Total over
    /// the whole input alphabet: for every (state, input) pair the result
    /// and the successor state are exactly those of the model's transition
    /// table, and the machine stays well formed.
    pub fn input(&mut self, input: TimerInput) -> (r: TimerOutput)
        requires
            old(self).wf(),
        ensures
            final(self).wf(),
            (final(self)@, r) == old(self)@.apply(input),
    {
        let ghost m0 = self@;
        match (self.state, input) {
            (_, TimerInput::Stop) => {
                let output = TimerOutput::ProgramStopped {
                    program_phase: self.current_phase_or_end(),
                };
                self.phase = 0;
                self.state = TimerState::Idle;
                output
            },
            (TimerState::Idle, TimerInput::Start) => {
                self.phase = 0;
                self.phase_transition();
                proof {
                    lemma_phase_entry_shape(m0.program, m0.init_vars, m0.vars, 0, m0.program.len());
                }
                let next = self.current_phase_or_end();
                TimerOutput::PhaseChange {
                    prev_phase: ProgramPhase::BeginProgram,
                    next_phase: next,
                    phase_completed: true,
                }
            },
            (TimerState::Idle, _) => TimerOutput::NoChange,
            (_, TimerInput::Start) => TimerOutput::NoChange,
            (_, TimerInput::Skip) => self.next_phase(false),
            (TimerState::Timer { progress, duration, paused }, TimerInput::Step) => {
                if paused {
                    TimerOutput::NoChange
                } else if progress > 0 {
                    self.state = TimerState::Timer { progress: progress - 1, duration, paused };
                    TimerOutput::TimerProgress { seconds: progress - 1 }
                } else {
                    self.next_phase(true)
                }
            },
            (TimerState::Timer { progress: _, duration, paused }, TimerInput::Reset) => {
                self.state = TimerState::Timer { progress: duration, duration, paused };
                TimerOutput::TimerReset { seconds: duration }
            },
            (TimerState::Timer { progress, duration, paused: _ }, TimerInput::Pause) => {
                self.state = TimerState::Timer { progress, duration, paused: true };
                TimerOutput::TimerPaused
            },
            (TimerState::Timer { progress, duration, paused: _ }, TimerInput::Resume) => {
                self.state = TimerState::Timer { progress, duration, paused: false };
                TimerOutput::TimerResumed { seconds: progress }
            },
            (TimerState::Timer { .. }, _) => TimerOutput::NoChange,
            (TimerState::Input, TimerInput::Input) => self.next_phase(true),
            (TimerState::Input, _) => TimerOutput::NoChange,
        }
    }
}

/// Totality: the transition table is defined over every (state, input)
/// pair — each one yields exactly one output and a well-formed successor
/// machine.
pub proof fn lemma_apply_total(m: FsmModel, input: TimerInput)
    requires
        m.inv(),
    ensures
        m.apply(input).0.inv(),
{
    lemma_phase_entry_shape(m.program, m.init_vars, m.vars, 0, m.program.len());
    if m.phase < m.program.len() {
        lemma_phase_entry_shape(m.program, m.init_vars, m.vars, m.phase + 1, m.program.len());
    }
}

/// Idle absorption: at rest, every input other than `Start` and `Stop` is a
/// no-op that yields `NoChange` and leaves the machine untouched.
pub proof fn lemma_idle_absorption(m: FsmModel, input: TimerInput)
    requires
        m.inv(),
        m.state is Idle,
        input != TimerInput::Start,
        input != TimerInput::Stop,
    ensures
        m.apply(input) == (m, TimerOutput::NoChange),
{
}

/// Progress monotonicity: while counting down unpaused, each `Step` strictly
/// decrements `progress` by one — reported as `TimerProgress` — and the
/// count never goes below zero.
pub proof fn lemma_progress_monotonic(m: FsmModel)
    requires
        m.inv(),
        m.state matches TimerState::Timer { progress, paused, .. } && !paused && progress > 0,
    ensures
        ({
            let r = m.apply(TimerInput::Step);
            &&& r.0 == m.with_state(
                TimerState::Timer {
                    progress: (m.state->progress - 1) as usize,
                    duration: m.state->duration,
                    paused: false,
                },
            )
            &&& r.1 == (TimerOutput::TimerProgress { seconds: (m.state->progress - 1) as usize })
        }),
{
}

/// The machine after `n` consecutive `Step` inputs.
pub open spec fn apply_steps(m: FsmModel, n: nat) -> FsmModel
    decreases n,
{
    if n == 0 {
        m
    } else {
        apply_steps(m, (n - 1) as nat).apply(TimerInput::Step).0
    }
}

/// Progress monotonicity over a run: while counting down unpaused, `n`
/// successive `Step` inputs bring `progress` down by exactly `n`, for any
/// `n` up to the remaining count — so the count reaches zero step by step
/// and never goes below it.
pub proof fn lemma_progress_monotonic_run(m: FsmModel, n: nat)
    requires
        m.inv(),
        m.state matches TimerState::Timer { progress, paused, .. } && !paused && n <= progress,
    ensures
        apply_steps(m, n).state == (TimerState::Timer {
            progress: (m.state->progress - n) as usize,
            duration: m.state->duration,
            paused: false,
        }),
        apply_steps(m, n).inv(),
    decreases n,
{
    if n > 0 {
        lemma_progress_monotonic_run(m, (n - 1) as nat);
        lemma_apply_total(apply_steps(m, (n - 1) as nat), TimerInput::Step);
    }
}

/// Pause gating: a `Step` delivered while paused never changes `progress`
/// and always yields `NoChange`.
pub proof fn lemma_pause_gating(m: FsmModel)
    requires
        m.inv(),
        m.state matches TimerState::Timer { paused: true, .. },
    ensures
        m.apply(TimerInput::Step) == (m, TimerOutput::NoChange),
{
}

/// Reset idempotence: `Reset` restores `progress` to the current phase's
/// full duration, and a repeated `Reset` gives the same state and the same
/// output again.
pub proof fn lemma_reset_idempotent(m: FsmModel)
    requires
        m.inv(),
        m.state is Timer,
    ensures
        ({
            let r1 = m.apply(TimerInput::Reset);
            let r2 = r1.0.apply(TimerInput::Reset);
            &&& r1.0.state == (TimerState::Timer {
                progress: m.state->duration,
                duration: m.state->duration,
                paused: m.state->paused,
            })
            &&& r1.1 == (TimerOutput::TimerReset { seconds: m.state->duration })
            &&& r2 == r1
        }),
{
}

/// Completion flag accuracy: whenever a transition reports a `PhaseChange`,
/// its `phase_completed` flag is true exactly when the phase ended by
/// natural exhaustion (a `Step` reaching zero, the awaited input arriving,
/// or the program starting) and false exactly when it ended via `Skip`.
pub proof fn lemma_completion_flag(m: FsmModel, input: TimerInput)
    requires
        m.inv(),
    ensures
        ({
            let r = m.apply(input);
            r.1 matches TimerOutput::PhaseChange { phase_completed, .. } ==> (phase_completed
                <==> input != TimerInput::Skip)
        }),
{
}

/// Program termination: advancing out of the last phase — by exhaustion,
/// the awaited input, or `Skip` — always leaves the machine `Idle` and
/// reports a `PhaseChange` whose `next_phase` is the `EndProgram` sentinel.
pub proof fn lemma_program_termination(m: FsmModel, input: TimerInput)
    requires
        m.inv(),
        m.phase + 1 == m.program.len(),
        ({
            ||| m.state matches TimerState::Timer { progress: 0, paused: false, .. } && input
                is Step
            ||| m.state is Input && (input is Input || input is Skip)
            ||| m.state is Timer && input is Skip
        }),
    ensures
        ({
            let r = m.apply(input);
            &&& r.0.state is Idle
            &&& r.0.phase == m.program.len()
            &&& r.1 matches TimerOutput::PhaseChange { next_phase, .. } && next_phase
                == ProgramPhase::EndProgram
        }),
{
}

} // verus!
