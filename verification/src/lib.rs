//! Error vocabulary of the agent memory store: validation, configuration,
//! storage, locking and lookup failures, with the exact messages each one
//! renders to.

mod agent;
mod config;
mod display;
mod laws;
mod layout;
mod not_found;
mod store;
mod text;
mod validation;

pub use agent::{AgentMemoryError, Result};
pub use config::ConfigError;
pub use laws::{
    all_digits, digits_value, lemma_decimal_is_canonical, lemma_io_conversion_matches_constructor,
    lemma_lock_wrapping_is_transparent, lemma_message_ignores_cause_without_source,
    lemma_validation_and_config_stay_distinct, lemma_wrapping_is_transparent,
};
pub use layout::{
    is_decimal_of, lemma_agent_message_layout, lemma_config_message_layout,
    lemma_lock_message_layout, lemma_not_found_message_layout, lemma_store_message_layout,
    lemma_validation_message_layout, reads_as,
};
pub use not_found::NotFoundError;
pub use store::{LockError, StoreError};
pub use validation::ValidationError;
