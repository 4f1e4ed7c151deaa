//! The game clock of a timed, multi-period contest.
//!
//! A [`manager::TournamentManager`] owns a pausable [`clock::Clock`], a
//! [`sequencer::Sequencer`] that walks the periods of a [`schedule::Schedule`],
//! and a [`timeout::TimeoutOverlay`] that can preempt the period countdown.
//! Every operation that depends on time takes the caller's monotonic
//! timestamp, so the whole machine is a function of its inputs.
pub mod time;
pub mod clock;
pub mod schedule;
pub mod sequencer;
pub mod timeout;
pub mod signal;
pub mod snapshot;
pub mod model;
pub mod manager;
pub mod laws;
pub mod sound;
pub mod overlay;
pub mod in_game;
pub mod driver;
