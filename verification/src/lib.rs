//! Window-lifecycle and shared-state core of a multi-window desktop shell.
//!
//! The library decides which logical application screens are open, enforces
//! one live window per screen, sequences window replacement so the set of
//! registered windows never drops to zero mid-operation, and keeps the
//! cross-window facts (authentication session, queue/agent snapshot)
//! consistent. Window-backend calls and event delivery are carried out by the
//! embedding application; every operation here returns the exact actions or
//! events the backend must perform.

pub mod auth_state;
pub mod clock;
pub mod events;
pub mod queue_state;
pub mod window_config;
pub mod window_manager;
pub mod window_type;
