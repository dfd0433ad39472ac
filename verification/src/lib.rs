//! Attendance synchronisation between ZKTeco BioTime (iClock) terminals and a
//! time-keeping service: request building, configuration decoding and the
//! per-terminal polling state machine, with their contracts.

pub mod text;
pub mod clock;
pub mod config;
pub mod iclock_models;
pub mod company_config;
pub mod time_models;
pub mod services;
pub mod port_loop;
pub mod startup;
