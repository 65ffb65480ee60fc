//! How each message is laid out: which texts it is made of, in which order,
//! each one whole, and how numbers appear in it.

use vstd::prelude::*;

use crate::display::char_debug;
use crate::laws::{all_digits, digits_value, lemma_decimal_is_canonical};
use crate::text::decimal;
use crate::agent::AgentMemoryError;
use crate::config::ConfigError;
use crate::not_found::NotFoundError;
use crate::store::{LockError, StoreError};
use crate::validation::ValidationError;

verus! {

/// `s` consists of the texts `parts`, one after the other, each one whole and
/// nothing else.
pub open spec fn reads_as(s: Seq<char>, parts: Seq<Seq<char>>) -> bool
    decreases parts.len(),
{
    if parts.len() == 0 {
        s.len() == 0
    } else {
        &&& parts[0].len() <= s.len()
        &&& s.subrange(0, parts[0].len() as int) == parts[0]
        &&& reads_as(s.skip(parts[0].len() as int), parts.drop_first())
    }
}

/// `d` is the usual decimal writing of `n`: only digits, at least one, whose
/// value is `n`, with no leading zero unless `n` is zero.
pub open spec fn is_decimal_of(d: Seq<char>, n: nat) -> bool {
    &&& d.len() > 0
    &&& all_digits(d)
    &&& digits_value(d) == n
    &&& d[0] == '0' ==> n == 0
}

proof fn lemma_reads_as_cons(a: Seq<char>, r: Seq<char>, parts: Seq<Seq<char>>)
    requires
        reads_as(r, parts),
    ensures
        reads_as(a + r, seq![a] + parts),
{
    let s = a + r;
    let p = seq![a] + parts;
    assert(p[0] == a);
    assert(s.subrange(0, a.len() as int) =~= a);
    assert(s.skip(a.len() as int) =~= r);
    assert(p.drop_first() =~= parts);
}

proof fn lemma_reads_as_1(a: Seq<char>)
    ensures
        reads_as(a, seq![a]),
{
    let e = Seq::<char>::empty();
    assert(reads_as(e, Seq::<Seq<char>>::empty()));
    lemma_reads_as_cons(a, e, Seq::empty());
    assert(a + e =~= a);
    assert(seq![a] + Seq::<Seq<char>>::empty() =~= seq![a]);
}

proof fn lemma_reads_as_2(a: Seq<char>, b: Seq<char>)
    ensures
        reads_as(a + b, seq![a, b]),
{
    lemma_reads_as_1(b);
    lemma_reads_as_cons(a, b, seq![b]);
    assert(seq![a] + seq![b] =~= seq![a, b]);
}

proof fn lemma_reads_as_3(a: Seq<char>, b: Seq<char>, c: Seq<char>)
    ensures
        reads_as(a + b + c, seq![a, b, c]),
{
    lemma_reads_as_2(b, c);
    lemma_reads_as_cons(a, b + c, seq![b, c]);
    assert(seq![a] + seq![b, c] =~= seq![a, b, c]);
    assert(a + (b + c) =~= a + b + c);
}

proof fn lemma_reads_as_4(a: Seq<char>, b: Seq<char>, c: Seq<char>, d: Seq<char>)
    ensures
        reads_as(a + b + c + d, seq![a, b, c, d]),
{
    lemma_reads_as_3(b, c, d);
    lemma_reads_as_cons(a, b + c + d, seq![b, c, d]);
    assert(seq![a] + seq![b, c, d] =~= seq![a, b, c, d]);
    assert(a + (b + c + d) =~= a + b + c + d);
}

proof fn lemma_reads_as_5(a: Seq<char>, b: Seq<char>, c: Seq<char>, d: Seq<char>, e: Seq<char>)
    ensures
        reads_as(a + b + c + d + e, seq![a, b, c, d, e]),
{
    lemma_reads_as_4(b, c, d, e);
    lemma_reads_as_cons(a, b + c + d + e, seq![b, c, d, e]);
    assert(seq![a] + seq![b, c, d, e] =~= seq![a, b, c, d, e]);
    assert(a + (b + c + d + e) =~= a + b + c + d + e);
}

proof fn lemma_decimal_witness(n: nat)
    ensures
        is_decimal_of(decimal(n), n),
{
    lemma_decimal_is_canonical(n);
}

/// The message of every validation failure names the field whole, then says
/// what is wrong; lengths and byte indices appear as the decimal writing of
/// the very numbers the error holds, and the offending character as its
/// `Debug` rendering.
pub proof fn lemma_validation_message_layout(e: ValidationError)
    ensures
        ({
            let m = e.spec_message();
            match e {
                ValidationError::Empty { field } =>
                    reads_as(m, seq![field@, " must not be empty"@]),
                ValidationError::TooLong { field, actual, max } =>
                    exists|a: Seq<char>, b: Seq<char>|
                        #![trigger is_decimal_of(a, actual as nat), is_decimal_of(b, max as nat)]
                        is_decimal_of(a, actual as nat) && is_decimal_of(b, max as nat)
                        && reads_as(
                            m,
                            seq![field@, " exceeds maximum length: actual="@, a, ", max="@, b],
                        ),
                ValidationError::TooShort { field, actual, min } =>
                    exists|a: Seq<char>, b: Seq<char>|
                        #![trigger is_decimal_of(a, actual as nat), is_decimal_of(b, min as nat)]
                        is_decimal_of(a, actual as nat) && is_decimal_of(b, min as nat)
                        && reads_as(
                            m,
                            seq![field@, " is below minimum length: actual="@, a, ", min="@, b],
                        ),
                ValidationError::InvalidCharacter { field, character, index } =>
                    exists|i: Seq<char>|
                        #![trigger is_decimal_of(i, index as nat)]
                        is_decimal_of(i, index as nat) && reads_as(
                            m,
                            seq![
                                field@,
                                " contains invalid character "@,
                                char_debug(character),
                                " at byte index "@,
                                i,
                            ],
                        ),
                ValidationError::InvalidEncoding { field } =>
                    reads_as(m, seq![field@, " contains invalid encoding"@]),
                ValidationError::InvalidPath { field, reason } =>
                    reads_as(m, seq!["invalid path for "@, field@, ": "@, reason@]),
                ValidationError::InvalidSegment { field, reason } =>
                    reads_as(m, seq!["invalid segment in "@, field@, ": "@, reason@]),
                ValidationError::InvalidFormat { field, reason } =>
                    reads_as(m, seq!["invalid "@, field@, ": "@, reason@]),
            }
        }),
{
    match e {
        ValidationError::Empty { field } => {
            lemma_reads_as_2(field@, " must not be empty"@);
        },
        ValidationError::TooLong { field, actual, max } => {
            lemma_decimal_witness(actual as nat);
            lemma_decimal_witness(max as nat);
            lemma_reads_as_5(
                field@,
                " exceeds maximum length: actual="@,
                decimal(actual as nat),
                ", max="@,
                decimal(max as nat),
            );
        },
        ValidationError::TooShort { field, actual, min } => {
            lemma_decimal_witness(actual as nat);
            lemma_decimal_witness(min as nat);
            lemma_reads_as_5(
                field@,
                " is below minimum length: actual="@,
                decimal(actual as nat),
                ", min="@,
                decimal(min as nat),
            );
        },
        ValidationError::InvalidCharacter { field, character, index } => {
            lemma_decimal_witness(index as nat);
            lemma_reads_as_5(
                field@,
                " contains invalid character "@,
                char_debug(character),
                " at byte index "@,
                decimal(index as nat),
            );
        },
        ValidationError::InvalidEncoding { field } => {
            lemma_reads_as_2(field@, " contains invalid encoding"@);
        },
        ValidationError::InvalidPath { field, reason } => {
            lemma_reads_as_4("invalid path for "@, field@, ": "@, reason@);
        },
        ValidationError::InvalidSegment { field, reason } => {
            lemma_reads_as_4("invalid segment in "@, field@, ": "@, reason@);
        },
        ValidationError::InvalidFormat { field, reason } => {
            lemma_reads_as_4("invalid "@, field@, ": "@, reason@);
        },
    }
}

/// The message of every configuration failure states what went wrong, then
/// gives the field name, reason or parser message whole; a version appears
/// as the decimal writing of the very number the error holds.
pub proof fn lemma_config_message_layout(e: ConfigError)
    ensures
        ({
            let m = e.spec_message();
            match e {
                ConfigError::MissingField { field } =>
                    reads_as(m, seq!["missing required configuration field: "@, field@]),
                ConfigError::UnsupportedVersion { version } =>
                    exists|v: Seq<char>|
                        #![trigger is_decimal_of(v, version as nat)]
                        is_decimal_of(v, version as nat)
                        && reads_as(m, seq!["unsupported configuration version: "@, v]),
                ConfigError::Malformed { reason } =>
                    reads_as(m, seq!["malformed configuration: "@, reason@]),
                ConfigError::InvalidProjectName { reason } =>
                    reads_as(m, seq!["invalid project name: "@, reason@]),
                ConfigError::InvalidStorePath { reason } =>
                    reads_as(m, seq!["invalid store path: "@, reason@]),
                ConfigError::Parse { message } =>
                    reads_as(m, seq!["failed to parse configuration: "@, message@]),
            }
        }),
{
    match e {
        ConfigError::MissingField { field } => {
            lemma_reads_as_2("missing required configuration field: "@, field@);
        },
        ConfigError::UnsupportedVersion { version } => {
            lemma_decimal_witness(version as nat);
            lemma_reads_as_2("unsupported configuration version: "@, decimal(version as nat));
        },
        ConfigError::Malformed { reason } => {
            lemma_reads_as_2("malformed configuration: "@, reason@);
        },
        ConfigError::InvalidProjectName { reason } => {
            lemma_reads_as_2("invalid project name: "@, reason@);
        },
        ConfigError::InvalidStorePath { reason } => {
            lemma_reads_as_2("invalid store path: "@, reason@);
        },
        ConfigError::Parse { message } => {
            lemma_reads_as_2("failed to parse configuration: "@, message@);
        },
    }
}

/// A not-found message names the kind of entity and then its identifier,
/// each whole.
pub proof fn lemma_not_found_message_layout(e: NotFoundError)
    ensures
        reads_as(e.spec_message(), seq![e.kind@, " not found: "@, e.identifier@]),
{
    lemma_reads_as_3(e.kind@, " not found: "@, e.identifier@);
}

/// The message of every lock failure states what went wrong and gives the
/// path whole; a failure caused by an I/O error ends with that error's text,
/// whole.
pub proof fn lemma_lock_message_layout(e: LockError, cause: Seq<char>)
    ensures
        ({
            let m = e.spec_message_with_cause(cause);
            match e {
                LockError::AlreadyHeld { path } =>
                    reads_as(m, seq!["store lock is already held: "@, path@]),
                LockError::Timeout { path } =>
                    reads_as(m, seq!["timed out while acquiring lock: "@, path@]),
                LockError::Acquire { path, .. } =>
                    reads_as(m, seq!["failed to acquire lock for "@, path@, ": "@, cause]),
                LockError::Release { path, .. } =>
                    reads_as(m, seq!["failed to release lock for "@, path@, ": "@, cause]),
            }
        }),
{
    match e {
        LockError::AlreadyHeld { path } => {
            lemma_reads_as_2("store lock is already held: "@, path@);
        },
        LockError::Timeout { path } => {
            lemma_reads_as_2("timed out while acquiring lock: "@, path@);
        },
        LockError::Acquire { path, .. } => {
            lemma_reads_as_4("failed to acquire lock for "@, path@, ": "@, cause);
        },
        LockError::Release { path, .. } => {
            lemma_reads_as_4("failed to release lock for "@, path@, ": "@, cause);
        },
    }
}

/// The message of every store failure states what went wrong and gives the
/// path, reason or serializer message whole; a failure caused by an I/O
/// error ends with that error's text, whole; a version appears as the decimal
/// writing of the very number the error holds; a lock failure reads exactly
/// as the lock error does.
pub proof fn lemma_store_message_layout(e: StoreError, cause: Seq<char>)
    ensures
        ({
            let m = e.spec_message_with_cause(cause);
            match e {
                StoreError::NotInitialized => reads_as(m, seq!["store is not initialized"@]),
                StoreError::MissingFile { path } =>
                    reads_as(m, seq!["store file does not exist: "@, path@]),
                StoreError::Malformed { reason } =>
                    reads_as(m, seq!["store file is malformed: "@, reason@]),
                StoreError::UnsupportedVersion { version } =>
                    exists|v: Seq<char>|
                        #![trigger is_decimal_of(v, version as nat)]
                        is_decimal_of(v, version as nat)
                        && reads_as(m, seq!["unsupported store format version: "@, v]),
                StoreError::PreparePath { path, .. } =>
                    reads_as(m, seq!["failed to prepare store path "@, path@, ": "@, cause]),
                StoreError::Read { path, .. } =>
                    reads_as(m, seq!["failed to read store "@, path@, ": "@, cause]),
                StoreError::Write { path, .. } =>
                    reads_as(m, seq!["failed to write store "@, path@, ": "@, cause]),
                StoreError::AtomicPersist { path, reason } =>
                    reads_as(m, seq!["atomic persist failed for "@, path@, ": "@, reason@]),
                StoreError::Lock(l) => m == l.spec_message_with_cause(cause),
                StoreError::Serialize { message } =>
                    reads_as(m, seq!["failed to serialize store: "@, message@]),
                StoreError::Deserialize { message } =>
                    reads_as(m, seq!["failed to deserialize store: "@, message@]),
            }
        }),
{
    match e {
        StoreError::NotInitialized => {
            lemma_reads_as_1("store is not initialized"@);
        },
        StoreError::MissingFile { path } => {
            lemma_reads_as_2("store file does not exist: "@, path@);
        },
        StoreError::Malformed { reason } => {
            lemma_reads_as_2("store file is malformed: "@, reason@);
        },
        StoreError::UnsupportedVersion { version } => {
            lemma_decimal_witness(version as nat);
            lemma_reads_as_2("unsupported store format version: "@, decimal(version as nat));
        },
        StoreError::PreparePath { path, .. } => {
            lemma_reads_as_4("failed to prepare store path "@, path@, ": "@, cause);
        },
        StoreError::Read { path, .. } => {
            lemma_reads_as_4("failed to read store "@, path@, ": "@, cause);
        },
        StoreError::Write { path, .. } => {
            lemma_reads_as_4("failed to write store "@, path@, ": "@, cause);
        },
        StoreError::AtomicPersist { path, reason } => {
            lemma_reads_as_4("atomic persist failed for "@, path@, ": "@, reason@);
        },
        StoreError::Lock(l) => {},
        StoreError::Serialize { message } => {
            lemma_reads_as_2("failed to serialize store: "@, message@);
        },
        StoreError::Deserialize { message } => {
            lemma_reads_as_2("failed to deserialize store: "@, message@);
        },
    }
}

/// The crate-wide message: a wrapped failure reads exactly as the wrapped
/// error does; an I/O failure reads "I/O error: " followed by the whole text
/// of the I/O error; overflow and internal failures give their description
/// whole.
pub proof fn lemma_agent_message_layout(e: AgentMemoryError, cause: Seq<char>)
    ensures
        ({
            let m = e.spec_message_with_cause(cause);
            match e {
                AgentMemoryError::Validation(v) => m == v.spec_message(),
                AgentMemoryError::Config(c) => m == c.spec_message(),
                AgentMemoryError::Store(s) => m == s.spec_message_with_cause(cause),
                AgentMemoryError::NotFound(n) => m == n.spec_message(),
                AgentMemoryError::Io { .. } => reads_as(m, seq!["I/O error: "@, cause]),
                AgentMemoryError::Overflow { context } =>
                    reads_as(m, seq!["overflow while "@, context@]),
                AgentMemoryError::Internal { message } =>
                    reads_as(m, seq!["internal invariant violation: "@, message@]),
            }
        }),
{
    match e {
        AgentMemoryError::Io { .. } => {
            lemma_reads_as_2("I/O error: "@, cause);
        },
        AgentMemoryError::Overflow { context } => {
            lemma_reads_as_2("overflow while "@, context@);
        },
        AgentMemoryError::Internal { message } => {
            lemma_reads_as_2("internal invariant violation: "@, message@);
        },
        _ => {},
    }
}

} // verus!
