//! Validation failures for user input: keys, namespaces, values and paths.

use vstd::prelude::*;

use crate::display::{char_debug, char_debug_text};
use crate::text::{decimal, push_decimal};

verus! {

/// Validation failures for user input, keys, namespaces, values and paths.
///
/// These errors are raised as early as possible, before any mutation or
/// persistence side effect occurs.
#[derive(Debug, Clone, PartialEq, Eq)]
pub enum ValidationError {
    /// A required field was empty.
    Empty {
        /// Logical field name, such as `key` or `project_name`.
        field: &'static str,
    },
    /// The provided value exceeded an allowed length.
    TooLong {
        /// Logical field name.
        field: &'static str,
        /// Actual observed length.
        actual: usize,
        /// Maximum allowed length.
        max: usize,
    },
    /// The provided value was shorter than a minimum required length.
    TooShort {
        /// Logical field name.
        field: &'static str,
        /// Actual observed length.
        actual: usize,
        /// Minimum required length.
        min: usize,
    },
    /// The value contained an invalid character for the target field.
    InvalidCharacter {
        /// Logical field name.
        field: &'static str,
        /// The offending character.
        character: char,
        /// Byte index into the original string.
        index: usize,
    },
    /// The value contained an invalid byte sequence or unsupported encoding.
    InvalidEncoding {
        /// Logical field name.
        field: &'static str,
    },
    /// A path failed validation.
    InvalidPath {
        /// Logical field name.
        field: &'static str,
        /// Human-readable validation reason.
        reason: &'static str,
    },
    /// A namespace or key segment was malformed.
    InvalidSegment {
        /// Logical field name.
        field: &'static str,
        /// Human-readable validation reason.
        reason: &'static str,
    },
    /// The input was structurally invalid.
    InvalidFormat {
        /// Logical field name.
        field: &'static str,
        /// Human-readable validation reason.
        reason: &'static str,
    },
}

impl ValidationError {
    /// The message this error renders to.
    pub open spec fn spec_message(self) -> Seq<char> {
        match self {
            ValidationError::Empty { field } => field@ + " must not be empty"@,
            ValidationError::TooLong { field, actual, max } =>
                field@ + " exceeds maximum length: actual="@ + decimal(actual as nat)
                    + ", max="@ + decimal(max as nat),
            ValidationError::TooShort { field, actual, min } =>
                field@ + " is below minimum length: actual="@ + decimal(actual as nat)
                    + ", min="@ + decimal(min as nat),
            ValidationError::InvalidCharacter { field, character, index } =>
                field@ + " contains invalid character "@ + char_debug(character)
                    + " at byte index "@ + decimal(index as nat),
            ValidationError::InvalidEncoding { field } => field@ + " contains invalid encoding"@,
            ValidationError::InvalidPath { field, reason } =>
                "invalid path for "@ + field@ + ": "@ + reason@,
            ValidationError::InvalidSegment { field, reason } =>
                "invalid segment in "@ + field@ + ": "@ + reason@,
            ValidationError::InvalidFormat { field, reason } =>
                "invalid "@ + field@ + ": "@ + reason@,
        }
    }

    /// Renders the human-readable message of this error.
    pub fn message(&self) -> (s: String)
        ensures
            s@ == self.spec_message(),
    {
        let mut s = String::new();
        match self {
            ValidationError::Empty { field } => {
                s.append(*field);
                s.append(" must not be empty");
            },
            ValidationError::TooLong { field, actual, max } => {
                s.append(*field);
                s.append(" exceeds maximum length: actual=");
                push_decimal(&mut s, *actual as u64);
                s.append(", max=");
                push_decimal(&mut s, *max as u64);
            },
            ValidationError::TooShort { field, actual, min } => {
                s.append(*field);
                s.append(" is below minimum length: actual=");
                push_decimal(&mut s, *actual as u64);
                s.append(", min=");
                push_decimal(&mut s, *min as u64);
            },
            ValidationError::InvalidCharacter { field, character, index } => {
                s.append(*field);
                s.append(" contains invalid character ");
                let shown = char_debug_text(*character);
                s.append(shown.as_str());
                s.append(" at byte index ");
                push_decimal(&mut s, *index as u64);
            },
            ValidationError::InvalidEncoding { field } => {
                s.append(*field);
                s.append(" contains invalid encoding");
            },
            ValidationError::InvalidPath { field, reason } => {
                s.append("invalid path for ");
                s.append(*field);
                s.append(": ");
                s.append(*reason);
            },
            ValidationError::InvalidSegment { field, reason } => {
                s.append("invalid segment in ");
                s.append(*field);
                s.append(": ");
                s.append(*reason);
            },
            ValidationError::InvalidFormat { field, reason } => {
                s.append("invalid ");
                s.append(*field);
                s.append(": ");
                s.append(*reason);
            },
        }
        s
    }

    /// Constructs an `Empty` validation error.
    #[must_use]
    pub fn empty(field: &'static str) -> (e: Self)
        ensures
            e == (ValidationError::Empty { field }),
    {
        ValidationError::Empty { field }
    }

    /// Constructs a `TooLong` validation error.
    #[must_use]
    pub fn too_long(field: &'static str, actual: usize, max: usize) -> (e: Self)
        ensures
            e == (ValidationError::TooLong { field, actual, max }),
    {
        ValidationError::TooLong { field, actual, max }
    }

    /// Constructs a `TooShort` validation error.
    #[must_use]
    pub fn too_short(field: &'static str, actual: usize, min: usize) -> (e: Self)
        ensures
            e == (ValidationError::TooShort { field, actual, min }),
    {
        ValidationError::TooShort { field, actual, min }
    }

    /// Constructs an `InvalidPath` validation error.
    #[must_use]
    pub fn invalid_path(field: &'static str, reason: &'static str) -> (e: Self)
        ensures
            e == (ValidationError::InvalidPath { field, reason }),
    {
        ValidationError::InvalidPath { field, reason }
    }

    /// Constructs an `InvalidSegment` validation error.
    #[must_use]
    pub fn invalid_segment(field: &'static str, reason: &'static str) -> (e: Self)
        ensures
            e == (ValidationError::InvalidSegment { field, reason }),
    {
        ValidationError::InvalidSegment { field, reason }
    }

    /// Constructs an `InvalidFormat` validation error.
    #[must_use]
    pub fn invalid_format(field: &'static str, reason: &'static str) -> (e: Self)
        ensures
            e == (ValidationError::InvalidFormat { field, reason }),
    {
        ValidationError::InvalidFormat { field, reason }
    }
}

} // verus!
