//! Bounded-attempt background action orchestrator.
//!
//! A session records whether a run is active, which server it seeks and how
//! many attempts it has made. Control operations claim, cancel and query the
//! session; the retry loop is a state machine that a driver advances one
//! event at a time, performing the outside work each step asks for.

pub mod laws;
pub mod observer;
pub mod retry;
pub mod session;
pub mod system;

pub use observer::{fallback_server_id, get_current_server, ServerProbe};
pub use retry::{retry_step, LoopAction, LoopEvent, RetryPhase};
pub use session::{
    get_scuttle_status, start_scuttle, stop_scuttle, AttemptCheck, ScuttleState, Verdict,
    MAX_ATTEMPTS,
};
