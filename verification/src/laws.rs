//! Properties that relate the error types and their renderings to each other.

use vstd::prelude::*;
use vstd::std_specs::convert::FromSpec;

use crate::agent::AgentMemoryError;
use crate::config::ConfigError;
use crate::not_found::NotFoundError;
use crate::store::{LockError, StoreError};
use crate::text::{decimal, digit_char};
use crate::validation::ValidationError;

verus! {

/// Wrapping a specific error into the crate-wide error (as `From` does) is
/// transparent: the wrapper renders the same message and reports the same
/// underlying I/O error as the wrapped error.
pub proof fn lemma_wrapping_is_transparent(
    v: ValidationError,
    c: ConfigError,
    s: StoreError,
    n: NotFoundError,
    cause: Seq<char>,
)
    ensures
        AgentMemoryError::from_spec(v).spec_message_with_cause(cause) == v.spec_message(),
        AgentMemoryError::from_spec(v).spec_io_source() is None,
        AgentMemoryError::from_spec(c).spec_message_with_cause(cause) == c.spec_message(),
        AgentMemoryError::from_spec(c).spec_io_source() is None,
        AgentMemoryError::from_spec(s).spec_message_with_cause(cause)
            == s.spec_message_with_cause(cause),
        AgentMemoryError::from_spec(s).spec_io_source() == s.spec_io_source(),
        AgentMemoryError::from_spec(n).spec_message_with_cause(cause) == n.spec_message(),
        AgentMemoryError::from_spec(n).spec_io_source() is None,
{
}

/// A lock failure converted into a store failure (as `From` does) renders
/// the same message and reports the same underlying I/O error.
pub proof fn lemma_lock_wrapping_is_transparent(l: LockError, cause: Seq<char>)
    ensures
        StoreError::from_spec(l).spec_message_with_cause(cause)
            == l.spec_message_with_cause(cause),
        StoreError::from_spec(l).spec_io_source() == l.spec_io_source(),
{
}

/// Converting an I/O error with `From` builds the same error as the `io`
/// constructor, and that error reports the I/O error as its cause.
pub proof fn lemma_io_conversion_matches_constructor(source: std::io::Error)
    ensures
        AgentMemoryError::from_spec(source) == (AgentMemoryError::Io { source }),
        AgentMemoryError::from_spec(source).spec_io_source() == Some(source),
{
}

/// Input validation failures and configuration failures stay
/// distinguishable once wrapped in the crate-wide error.
pub proof fn lemma_validation_and_config_stay_distinct(v: ValidationError, c: ConfigError)
    ensures
        AgentMemoryError::from_spec(v) != AgentMemoryError::from_spec(c),
        AgentMemoryError::from_spec(v) is Validation,
        AgentMemoryError::from_spec(c) is Config,
{
}

/// An error without an underlying I/O error renders to a message that does
/// not depend on the cause text.
pub proof fn lemma_message_ignores_cause_without_source(
    e: AgentMemoryError,
    cause1: Seq<char>,
    cause2: Seq<char>,
)
    requires
        e.spec_io_source() is None,
    ensures
        e.spec_message_with_cause(cause1) == e.spec_message_with_cause(cause2),
{
}

/// The numeric value of a sequence of decimal digit characters.
pub open spec fn digits_value(s: Seq<char>) -> nat
    decreases s.len(),
{
    if s.len() == 0 {
        0
    } else {
        digits_value(s.drop_last()) * 10 + ((s.last() as int - '0' as int) as nat)
    }
}

/// Every character of `s` is one of `'0'` to `'9'`.
pub open spec fn all_digits(s: Seq<char>) -> bool {
    forall|i: int| 0 <= i < s.len() ==> '0' <= #[trigger] s[i] <= '9'
}

proof fn lemma_digit_char(d: nat)
    requires
        d < 10,
    ensures
        '0' <= digit_char(d) <= '9',
        digit_char(d) as int - '0' as int == d,
{
}

/// Numbers in messages are rendered in canonical decimal form: a non-empty
/// run of digits whose value is the number, with no leading zero unless the
/// number is zero.
pub proof fn lemma_decimal_is_canonical(n: nat)
    ensures
        decimal(n).len() > 0,
        all_digits(decimal(n)),
        digits_value(decimal(n)) == n,
        decimal(n)[0] == '0' ==> n == 0,
    decreases n,
{
    if n < 10 {
        lemma_digit_char(n);
        assert(decimal(n).drop_last() =~= Seq::<char>::empty());
        assert(digits_value(Seq::<char>::empty()) == 0);
    } else {
        lemma_decimal_is_canonical(n / 10);
        lemma_digit_char(n % 10);
        let s = decimal(n);
        let p = decimal(n / 10);
        assert(s.drop_last() =~= p);
        assert(s[0] == p[0]);
    }
}

} // verus!
