//! The domain-level "not found" condition.

use vstd::prelude::*;

verus! {

/// A domain-level not-found condition.
///
/// This is separate from `Option<T>`-style lookup misses because some API
/// calls return a structured error when a user explicitly requested an entity
/// that should exist.
#[derive(Debug, Clone, PartialEq, Eq)]
pub struct NotFoundError {
    /// Logical entity kind, such as `key`, `namespace`, or `store`.
    pub kind: &'static str,
    /// Human-readable identifier.
    pub identifier: String,
}

impl NotFoundError {
    /// Constructs a new not-found error.
    #[must_use]
    pub fn new(kind: &'static str, identifier: &str) -> (e: Self)
        ensures
            e.kind == kind,
            e.identifier@ == identifier@,
    {
        NotFoundError { kind, identifier: identifier.to_owned() }
    }

    /// The message this error renders to.
    pub open spec fn spec_message(self) -> Seq<char> {
        self.kind@ + " not found: "@ + self.identifier@
    }

    /// Renders the human-readable message of this error.
    pub fn message(&self) -> (s: String)
        ensures
            s@ == self.spec_message(),
    {
        let mut s = String::new();
        s.append(self.kind);
        s.append(" not found: ");
        s.append(self.identifier.as_str());
        s
    }
}

} // verus!
