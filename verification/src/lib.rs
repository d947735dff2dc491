//! Employees: long-living worker threads managed by runtimes.
//!
//! This crate holds the verified core of the runtimes: their errors, the thread
//! settings they hand to the operating system, the shared stop flag, the decision
//! procedure of a worker's main loop and the bookkeeping by which a runtime
//! supervises its workers (respawning the ones that panicked).

mod error;
mod settings;
mod shutdown;
mod supervisor;
mod worker;

pub use error::Error;
pub use settings::Settings;
pub use shutdown::Shutdown;
pub use supervisor::{
    held_count, is_wait_step, keep_held, lemma_close, lemma_dropped_workers_finished,
    lemma_failed_launch_stops, lemma_health_check_respawns_panicked, lemma_health_check_steps,
    lemma_held_worker_is_kept, lemma_held_workers_are_kept, lemma_kept_workers_hold_a_thread,
    lemma_kept_workers_in_order, lemma_launch_adds_worker, lemma_launch_frames,
    lemma_only_failures_and_close_stop, lemma_other_steps_frame, lemma_panicked_worker_is_respawned,
    lemma_released_handles, lemma_stop_flag_is_kept, lemma_stop_request_is_final,
    lemma_thread_joined_once, lemma_vacant_workers_are_dropped, lemma_wait_keeps_stop_status,
    lemma_wait_leaves_nothing, live_count, live_handles, state_after_check, state_after_join,
    state_after_respawn, Slot, SlotState, Supervisor, SupervisorStep, SupervisorView,
};
pub use worker::{
    lemma_break_ends_loop, lemma_finished_is_final, lemma_start_hook_runs_once,
    lemma_stopped_runtime_ends_loop, lemma_update_only_while_running, stage_after, stage_after_all,
    ControlFlow, LoopEvent, LoopStage,
};
