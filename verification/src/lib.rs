//! Hardware-assisted breakpoint control for a traced x86-64 process.
//!
//! The library arms and disarms CPU debug-register breakpoints and toggles
//! execution-control flags on a process stopped under ptrace, deriving every
//! hardware register value from scratch on each call and proving the derived
//! bit patterns exact.

pub mod x86;
