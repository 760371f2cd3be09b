//! A phase-sequenced interval timer core.
//!
//! A timer *program* is an ordered sequence of phases: timed countdowns,
//! input-wait gates, and control-flow steps that drive loop variables. The
//! timer state machine interprets such a program one phase at a time: each
//! call to its transition function consumes one input event and returns
//! exactly one output event describing what changed. The machine is a pure,
//! synchronous event transducer: it owns no clock and performs no I/O; the
//! passage of time is modelled entirely as externally delivered `Step`
//! inputs.

pub mod display;
pub mod fsm;
pub mod program;

pub use display::decrement_clamp_and_report;
pub use display::decrement_seconds;
pub use display::seconds_to_h_m_s_display_string;
pub use fsm::TimerFSM;
pub use fsm::TimerInput;
pub use fsm::TimerOutput;
pub use fsm::TimerState;
pub use program::ProgramPhase;
pub use program::program_is_valid;
