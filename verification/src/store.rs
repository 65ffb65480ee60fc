//! Failures of the store and persistence layers, and of store locking.
//!
//! Paths are held as the text under which they are displayed.

use vstd::prelude::*;

use crate::display::io_error_text;
use crate::text::{decimal, push_decimal};

verus! {

/// Locking failures.
///
/// A dedicated type keeps locking concerns explicit.
#[derive(Debug)]
pub enum LockError {
    /// The lock is already held by another process or owner.
    AlreadyHeld {
        /// Lock path or related store path.
        path: String,
    },
    /// The lock operation timed out.
    Timeout {
        /// Lock path or related store path.
        path: String,
    },
    /// The lock could not be acquired due to an I/O failure.
    Acquire {
        /// Lock path or related store path.
        path: String,
        /// Underlying I/O error.
        source: std::io::Error,
    },
    /// The lock could not be released cleanly.
    Release {
        /// Lock path or related store path.
        path: String,
        /// Underlying I/O error.
        source: std::io::Error,
    },
}

impl LockError {
    /// The underlying I/O error, for the variants that carry one.
    pub open spec fn spec_io_source(self) -> Option<std::io::Error> {
        match self {
            LockError::Acquire { source, .. } => Some(source),
            LockError::Release { source, .. } => Some(source),
            _ => None,
        }
    }

    /// The message this error renders to, where `cause` is the rendered text
    /// of its underlying I/O error (unused by the variants that carry none).
    pub open spec fn spec_message_with_cause(self, cause: Seq<char>) -> Seq<char> {
        match self {
            LockError::AlreadyHeld { path } => "store lock is already held: "@ + path@,
            LockError::Timeout { path } => "timed out while acquiring lock: "@ + path@,
            LockError::Acquire { path, .. } =>
                "failed to acquire lock for "@ + path@ + ": "@ + cause,
            LockError::Release { path, .. } =>
                "failed to release lock for "@ + path@ + ": "@ + cause,
        }
    }

    /// Returns the underlying I/O error, if this failure has one.
    pub fn io_source(&self) -> (r: Option<&std::io::Error>)
        ensures
            r matches Some(e) ==> self.spec_io_source() == Some(*e),
            r is None ==> self.spec_io_source() is None,
    {
        match self {
            LockError::Acquire { source, .. } => Some(source),
            LockError::Release { source, .. } => Some(source),
            _ => None,
        }
    }

    /// Renders the message of this error, given the text of its cause.
    pub fn message_with_cause(&self, cause: &str) -> (s: String)
        ensures
            s@ == self.spec_message_with_cause(cause@),
    {
        let mut s = String::new();
        match self {
            LockError::AlreadyHeld { path } => {
                s.append("store lock is already held: ");
                s.append(path.as_str());
            },
            LockError::Timeout { path } => {
                s.append("timed out while acquiring lock: ");
                s.append(path.as_str());
            },
            LockError::Acquire { path, .. } => {
                s.append("failed to acquire lock for ");
                s.append(path.as_str());
                s.append(": ");
                s.append(cause);
            },
            LockError::Release { path, .. } => {
                s.append("failed to release lock for ");
                s.append(path.as_str());
                s.append(": ");
                s.append(cause);
            },
        }
        s
    }

    /// Renders the human-readable message of this error, with the standard
    /// rendering of its underlying I/O error as the cause; fails, as the
    /// standard formatting does, when rendering that I/O error fails.
    pub fn message(&self) -> (r: Result<String, std::fmt::Error>)
        ensures
            self.spec_io_source() is None ==> (r matches Ok(s) && s@
                == self.spec_message_with_cause(Seq::empty())),
            r matches Ok(s) ==> exists|cause: Seq<char>|
                s@ == #[trigger] self.spec_message_with_cause(cause),
            r is Err ==> self.spec_io_source() is Some,
            r matches Ok(s) ==> self.spec_io_source() is Some ==> exists|t: String|
                #![trigger vstd::string::to_string_from_display_ensures::<std::io::Error>(&self.spec_io_source()->0, t)]
                vstd::string::to_string_from_display_ensures::<std::io::Error>(
                    &self.spec_io_source()->0,
                    t,
                ) && s@ == self.spec_message_with_cause(t@),
    {
        match self.io_source() {
            Some(e) => match io_error_text(e) {
                Ok(text) => {
                    let s = self.message_with_cause(text.as_str());
                    assert(vstd::string::to_string_from_display_ensures::<std::io::Error>(
                        &self.spec_io_source()->0,
                        text,
                    ));
                    Ok(s)
                },
                Err(err) => Err(err),
            },
            None => {
                let none = String::new();
                Ok(self.message_with_cause(none.as_str()))
            },
        }
    }
}

/// Errors produced by the store and persistence layers: opening a store,
/// loading it, flushing it, or acquiring a lock.
#[derive(Debug)]
pub enum StoreError {
    /// The store path has not been initialized yet.
    NotInitialized,
    /// The storage file does not exist.
    MissingFile {
        /// Missing storage file path.
        path: String,
    },
    /// The store file was malformed.
    Malformed {
        /// Human-readable reason.
        reason: String,
    },
    /// The store file uses an unsupported version.
    UnsupportedVersion {
        /// Parsed version.
        version: u32,
    },
    /// The storage path could not be created or prepared.
    PreparePath {
        /// Path that failed preparation.
        path: String,
        /// Underlying I/O error.
        source: std::io::Error,
    },
    /// Failed to read from storage.
    Read {
        /// Store path.
        path: String,
        /// Underlying I/O error.
        source: std::io::Error,
    },
    /// Failed to write to storage.
    Write {
        /// Store path.
        path: String,
        /// Underlying I/O error.
        source: std::io::Error,
    },
    /// Failed while atomically persisting data to a temporary file or during
    /// the final rename.
    AtomicPersist {
        /// Target path.
        path: String,
        /// Human-readable reason.
        reason: String,
    },
    /// A lock could not be acquired or maintained.
    Lock(LockError),
    /// Serialization failed.
    Serialize {
        /// Human-readable error message.
        message: String,
    },
    /// Deserialization failed.
    Deserialize {
        /// Human-readable error message.
        message: String,
    },
}

impl StoreError {
    /// The underlying I/O error, for the variants that carry one; a lock
    /// failure forwards to the lock error's own.
    pub open spec fn spec_io_source(self) -> Option<std::io::Error> {
        match self {
            StoreError::PreparePath { source, .. } => Some(source),
            StoreError::Read { source, .. } => Some(source),
            StoreError::Write { source, .. } => Some(source),
            StoreError::Lock(l) => l.spec_io_source(),
            _ => None,
        }
    }

    /// The message this error renders to, where `cause` is the rendered text
    /// of its underlying I/O error (unused by the variants that carry none).
    /// A lock failure renders exactly as the lock error does.
    pub open spec fn spec_message_with_cause(self, cause: Seq<char>) -> Seq<char> {
        match self {
            StoreError::NotInitialized => "store is not initialized"@,
            StoreError::MissingFile { path } => "store file does not exist: "@ + path@,
            StoreError::Malformed { reason } => "store file is malformed: "@ + reason@,
            StoreError::UnsupportedVersion { version } =>
                "unsupported store format version: "@ + decimal(version as nat),
            StoreError::PreparePath { path, .. } =>
                "failed to prepare store path "@ + path@ + ": "@ + cause,
            StoreError::Read { path, .. } => "failed to read store "@ + path@ + ": "@ + cause,
            StoreError::Write { path, .. } => "failed to write store "@ + path@ + ": "@ + cause,
            StoreError::AtomicPersist { path, reason } =>
                "atomic persist failed for "@ + path@ + ": "@ + reason@,
            StoreError::Lock(l) => l.spec_message_with_cause(cause),
            StoreError::Serialize { message } => "failed to serialize store: "@ + message@,
            StoreError::Deserialize { message } => "failed to deserialize store: "@ + message@,
        }
    }

    /// Returns the underlying I/O error, if this failure has one.
    pub fn io_source(&self) -> (r: Option<&std::io::Error>)
        ensures
            r matches Some(e) ==> self.spec_io_source() == Some(*e),
            r is None ==> self.spec_io_source() is None,
    {
        match self {
            StoreError::PreparePath { source, .. } => Some(source),
            StoreError::Read { source, .. } => Some(source),
            StoreError::Write { source, .. } => Some(source),
            StoreError::Lock(l) => l.io_source(),
            _ => None,
        }
    }

    /// Renders the message of this error, given the text of its cause.
    pub fn message_with_cause(&self, cause: &str) -> (s: String)
        ensures
            s@ == self.spec_message_with_cause(cause@),
    {
        let mut s = String::new();
        match self {
            StoreError::NotInitialized => {
                s.append("store is not initialized");
            },
            StoreError::MissingFile { path } => {
                s.append("store file does not exist: ");
                s.append(path.as_str());
            },
            StoreError::Malformed { reason } => {
                s.append("store file is malformed: ");
                s.append(reason.as_str());
            },
            StoreError::UnsupportedVersion { version } => {
                s.append("unsupported store format version: ");
                push_decimal(&mut s, *version as u64);
            },
            StoreError::PreparePath { path, .. } => {
                s.append("failed to prepare store path ");
                s.append(path.as_str());
                s.append(": ");
                s.append(cause);
            },
            StoreError::Read { path, .. } => {
                s.append("failed to read store ");
                s.append(path.as_str());
                s.append(": ");
                s.append(cause);
            },
            StoreError::Write { path, .. } => {
                s.append("failed to write store ");
                s.append(path.as_str());
                s.append(": ");
                s.append(cause);
            },
            StoreError::AtomicPersist { path, reason } => {
                s.append("atomic persist failed for ");
                s.append(path.as_str());
                s.append(": ");
                s.append(reason.as_str());
            },
            StoreError::Lock(l) => {
                s = l.message_with_cause(cause);
            },
            StoreError::Serialize { message } => {
                s.append("failed to serialize store: ");
                s.append(message.as_str());
            },
            StoreError::Deserialize { message } => {
                s.append("failed to deserialize store: ");
                s.append(message.as_str());
            },
        }
        s
    }

    /// Renders the human-readable message of this error, with the standard
    /// rendering of its underlying I/O error as the cause; fails, as the
    /// standard formatting does, when rendering that I/O error fails.
    pub fn message(&self) -> (r: Result<String, std::fmt::Error>)
        ensures
            self.spec_io_source() is None ==> (r matches Ok(s) && s@
                == self.spec_message_with_cause(Seq::empty())),
            r matches Ok(s) ==> exists|cause: Seq<char>|
                s@ == #[trigger] self.spec_message_with_cause(cause),
            r is Err ==> self.spec_io_source() is Some,
            r matches Ok(s) ==> self.spec_io_source() is Some ==> exists|t: String|
                #![trigger vstd::string::to_string_from_display_ensures::<std::io::Error>(&self.spec_io_source()->0, t)]
                vstd::string::to_string_from_display_ensures::<std::io::Error>(
                    &self.spec_io_source()->0,
                    t,
                ) && s@ == self.spec_message_with_cause(t@),
    {
        match self.io_source() {
            Some(e) => match io_error_text(e) {
                Ok(text) => {
                    let s = self.message_with_cause(text.as_str());
                    assert(vstd::string::to_string_from_display_ensures::<std::io::Error>(
                        &self.spec_io_source()->0,
                        text,
                    ));
                    Ok(s)
                },
                Err(err) => Err(err),
            },
            None => {
                let none = String::new();
                Ok(self.message_with_cause(none.as_str()))
            },
        }
    }

    /// Constructs a `MissingFile` error.
    #[must_use]
    pub fn missing_file(path: &str) -> (e: Self)
        ensures
            e matches StoreError::MissingFile { path: p } && p@ == path@,
    {
        StoreError::MissingFile { path: path.to_owned() }
    }

    /// Constructs a `Malformed` store error.
    #[must_use]
    pub fn malformed(reason: &str) -> (e: Self)
        ensures
            e matches StoreError::Malformed { reason: r } && r@ == reason@,
    {
        StoreError::Malformed { reason: reason.to_owned() }
    }

    /// Constructs a `Read` store error.
    #[must_use]
    pub fn read(path: &str, source: std::io::Error) -> (e: Self)
        ensures
            e matches StoreError::Read { path: p, source: s } && p@ == path@ && s == source,
    {
        StoreError::Read { path: path.to_owned(), source }
    }

    /// Constructs a `Write` store error.
    #[must_use]
    pub fn write(path: &str, source: std::io::Error) -> (e: Self)
        ensures
            e matches StoreError::Write { path: p, source: s } && p@ == path@ && s == source,
    {
        StoreError::Write { path: path.to_owned(), source }
    }

    /// Constructs an `AtomicPersist` store error.
    #[must_use]
    pub fn atomic_persist(path: &str, reason: &str) -> (e: Self)
        ensures
            e matches StoreError::AtomicPersist { path: p, reason: r } && p@ == path@ && r@
                == reason@,
    {
        StoreError::AtomicPersist { path: path.to_owned(), reason: reason.to_owned() }
    }
}

impl From<LockError> for StoreError {
    fn from(e: LockError) -> (r: Self) {
        StoreError::Lock(e)
    }
}

impl vstd::std_specs::convert::FromSpecImpl<LockError> for StoreError {
    open spec fn obeys_from_spec() -> bool {
        true
    }

    open spec fn from_spec(e: LockError) -> Self {
        StoreError::Lock(e)
    }
}

} // verus!
