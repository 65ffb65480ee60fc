//! The top-level error of the crate, wrapping every more specific failure.

use vstd::prelude::*;

use crate::config::ConfigError;
use crate::display::io_error_text;
use crate::not_found::NotFoundError;
use crate::store::StoreError;
use crate::validation::ValidationError;

verus! {

/// The crate-wide error.
///
/// The wrapping variants render and report their cause exactly as the
/// wrapped error does.
#[derive(Debug)]
pub enum AgentMemoryError {
    /// A caller supplied invalid input.
    Validation(ValidationError),
    /// The on-disk configuration was invalid or incomplete.
    Config(ConfigError),
    /// A storage operation failed.
    Store(StoreError),
    /// A requested item does not exist.
    NotFound(NotFoundError),
    /// An unexpected I/O error occurred outside a more specific storage context.
    Io {
        /// Underlying I/O error.
        source: std::io::Error,
    },
    /// A size or capacity calculation would overflow or exceed a defined limit.
    Overflow {
        /// Human-readable description of the failing operation.
        context: &'static str,
    },
    /// An internal invariant was violated: a state that should never happen
    /// if the implementation is correct.
    Internal {
        /// Human-readable invariant description.
        message: &'static str,
    },
}

/// Crate-local result alias, so that signatures read simply and error
/// handling stays consistent across the crate.
pub type Result<T> = std::result::Result<T, AgentMemoryError>;

impl AgentMemoryError {
    /// The underlying I/O error, for the variants that carry one; the
    /// wrapping variants forward to the wrapped error.
    pub open spec fn spec_io_source(self) -> Option<std::io::Error> {
        match self {
            AgentMemoryError::Store(e) => e.spec_io_source(),
            AgentMemoryError::Io { source } => Some(source),
            _ => None,
        }
    }

    /// The message this error renders to, where `cause` is the rendered text
    /// of its underlying I/O error (unused by the variants that carry none).
    pub open spec fn spec_message_with_cause(self, cause: Seq<char>) -> Seq<char> {
        match self {
            AgentMemoryError::Validation(e) => e.spec_message(),
            AgentMemoryError::Config(e) => e.spec_message(),
            AgentMemoryError::Store(e) => e.spec_message_with_cause(cause),
            AgentMemoryError::NotFound(e) => e.spec_message(),
            AgentMemoryError::Io { .. } => "I/O error: "@ + cause,
            AgentMemoryError::Overflow { context } => "overflow while "@ + context@,
            AgentMemoryError::Internal { message } =>
                "internal invariant violation: "@ + message@,
        }
    }

    /// Returns the underlying I/O error, if this failure has one.
    pub fn io_source(&self) -> (r: Option<&std::io::Error>)
        ensures
            r matches Some(e) ==> self.spec_io_source() == Some(*e),
            r is None ==> self.spec_io_source() is None,
    {
        match self {
            AgentMemoryError::Store(e) => e.io_source(),
            AgentMemoryError::Io { source } => Some(source),
            _ => None,
        }
    }

    /// Renders the message of this error, given the text of its cause.
    pub fn message_with_cause(&self, cause: &str) -> (s: String)
        ensures
            s@ == self.spec_message_with_cause(cause@),
    {
        match self {
            AgentMemoryError::Validation(e) => e.message(),
            AgentMemoryError::Config(e) => e.message(),
            AgentMemoryError::Store(e) => e.message_with_cause(cause),
            AgentMemoryError::NotFound(e) => e.message(),
            AgentMemoryError::Io { .. } => {
                let mut s = String::new();
                s.append("I/O error: ");
                s.append(cause);
                s
            },
            AgentMemoryError::Overflow { context } => {
                let mut s = String::new();
                s.append("overflow while ");
                s.append(*context);
                s
            },
            AgentMemoryError::Internal { message } => {
                let mut s = String::new();
                s.append("internal invariant violation: ");
                s.append(*message);
                s
            },
        }
    }

    /// Renders the human-readable message of this error, with the standard
    /// rendering of its underlying I/O error as the cause; fails, as the
    /// standard formatting does, when rendering that I/O error fails.
    pub fn message(&self) -> (r: std::result::Result<String, std::fmt::Error>)
        ensures
            self.spec_io_source() is None ==> (r matches Ok(s) && s@
                == self.spec_message_with_cause(Seq::empty())),
            r matches Ok(s) ==> exists|cause: Seq<char>|
                s@ == #[trigger] self.spec_message_with_cause(cause),
            r is Err ==> self.spec_io_source() is Some,
            r matches Ok(s) ==> self.spec_io_source() is Some ==> exists|t: String|
                #![trigger vstd::string::to_string_from_display_ensures::<std::io::Error>(&self.spec_io_source()->0, t)]
                vstd::string::to_string_from_display_ensures::<std::io::Error>(
                    &self.spec_io_source()->0,
                    t,
                ) && s@ == self.spec_message_with_cause(t@),
    {
        match self.io_source() {
            Some(e) => match io_error_text(e) {
                Ok(text) => {
                    let s = self.message_with_cause(text.as_str());
                    assert(vstd::string::to_string_from_display_ensures::<std::io::Error>(
                        &self.spec_io_source()->0,
                        text,
                    ));
                    Ok(s)
                },
                Err(err) => Err(err),
            },
            None => {
                let none = String::new();
                Ok(self.message_with_cause(none.as_str()))
            },
        }
    }

    /// Convenience constructor for generic I/O failures.
    #[must_use]
    pub fn io(source: std::io::Error) -> (e: Self)
        ensures
            e == (AgentMemoryError::Io { source }),
    {
        AgentMemoryError::Io { source }
    }

    /// Convenience constructor for overflow-related failures.
    #[must_use]
    pub fn overflow(context: &'static str) -> (e: Self)
        ensures
            e == (AgentMemoryError::Overflow { context }),
    {
        AgentMemoryError::Overflow { context }
    }

    /// Convenience constructor for internal invariant violations.
    #[must_use]
    pub fn internal(message: &'static str) -> (e: Self)
        ensures
            e == (AgentMemoryError::Internal { message }),
    {
        AgentMemoryError::Internal { message }
    }
}

impl From<ValidationError> for AgentMemoryError {
    fn from(e: ValidationError) -> (r: Self) {
        AgentMemoryError::Validation(e)
    }
}

impl vstd::std_specs::convert::FromSpecImpl<ValidationError> for AgentMemoryError {
    open spec fn obeys_from_spec() -> bool {
        true
    }

    open spec fn from_spec(e: ValidationError) -> Self {
        AgentMemoryError::Validation(e)
    }
}

impl From<ConfigError> for AgentMemoryError {
    fn from(e: ConfigError) -> (r: Self) {
        AgentMemoryError::Config(e)
    }
}

impl vstd::std_specs::convert::FromSpecImpl<ConfigError> for AgentMemoryError {
    open spec fn obeys_from_spec() -> bool {
        true
    }

    open spec fn from_spec(e: ConfigError) -> Self {
        AgentMemoryError::Config(e)
    }
}

impl From<StoreError> for AgentMemoryError {
    fn from(e: StoreError) -> (r: Self) {
        AgentMemoryError::Store(e)
    }
}

impl vstd::std_specs::convert::FromSpecImpl<StoreError> for AgentMemoryError {
    open spec fn obeys_from_spec() -> bool {
        true
    }

    open spec fn from_spec(e: StoreError) -> Self {
        AgentMemoryError::Store(e)
    }
}

impl From<NotFoundError> for AgentMemoryError {
    fn from(e: NotFoundError) -> (r: Self) {
        AgentMemoryError::NotFound(e)
    }
}

impl vstd::std_specs::convert::FromSpecImpl<NotFoundError> for AgentMemoryError {
    open spec fn obeys_from_spec() -> bool {
        true
    }

    open spec fn from_spec(e: NotFoundError) -> Self {
        AgentMemoryError::NotFound(e)
    }
}

impl From<std::io::Error> for AgentMemoryError {
    fn from(source: std::io::Error) -> (r: Self) {
        AgentMemoryError::Io { source }
    }
}

impl vstd::std_specs::convert::FromSpecImpl<std::io::Error> for AgentMemoryError {
    open spec fn obeys_from_spec() -> bool {
        true
    }

    open spec fn from_spec(source: std::io::Error) -> Self {
        AgentMemoryError::Io { source }
    }
}

} // verus!
